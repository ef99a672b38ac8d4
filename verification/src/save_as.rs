//! Save As outcomes: what the native dialog returned, and whether a write
//! may follow. Paths are compared under the path rules of Unix or of
//! Windows, as the platform reads them.
use vstd::prelude::*;
use crate::text::{
    chars_eq, chars_of, lower, lower_ascii_char, lower_char, lower_chars, trim, trim_chars,
};

verus! {

broadcast use vstd::string::group_string_axioms;

/// What a native Save As dialog session ended with.
#[derive(Debug, Clone, PartialEq, Eq)]
pub enum SaveAsDialogOutcome {
    Cancelled,
    Chosen(String),
    Denied { requested: String },
    Redirected { requested: String, redirected: String },
}

/// The mathematical value of an outcome: its paths as character sequences.
pub enum SaveAsOutcomeView {
    Cancelled,
    Chosen(Seq<char>),
    Denied(Seq<char>),
    Redirected(Seq<char>, Seq<char>),
}

impl View for SaveAsDialogOutcome {
    type V = SaveAsOutcomeView;

    open spec fn view(&self) -> SaveAsOutcomeView {
        match self {
            SaveAsDialogOutcome::Cancelled => SaveAsOutcomeView::Cancelled,
            SaveAsDialogOutcome::Chosen(p) => SaveAsOutcomeView::Chosen(p@),
            SaveAsDialogOutcome::Denied { requested } => SaveAsOutcomeView::Denied(requested@),
            SaveAsDialogOutcome::Redirected { requested, redirected } => SaveAsOutcomeView::Redirected(
                requested@,
                redirected@,
            ),
        }
    }
}

/// The message of a write that the dialog refused for `requested`.
pub open spec fn write_failure_message(requested: Seq<char>) -> Seq<char> {
    seq![
        'f', 'a', 'i', 'l', 'e', 'd', ' ', 't', 'o', ' ', 'w', 'r', 'i', 't', 'e', ' ', 'S', 'G', 'F',
        ' ', 'f', 'i', 'l', 'e', ' ',
    ] + requested + seq![':', ' ', 'a', 'c', 'c', 'e', 's', 's', ' ', 'd', 'e', 'n', 'i', 'e', 'd']
}

/// What `persist_save_as` gives back when the writer returned `w`.
pub open spec fn lift_written<T>(w: Result<T, String>) -> Result<Option<T>, String> {
    match w {
        Ok(t) => Ok(Some(t)),
        Err(e) => Err(e),
    }
}

/// Writes only a chosen path: a cancelled session changes nothing, and a denied
/// or redirected one fails with the requested path named, without writing.
pub fn persist_save_as<S, T>(outcome: SaveAsDialogOutcome, save_to_path: S) -> (r: Result<
    Option<T>,
    String,
>) where S: FnOnce(String) -> Result<T, String>
    requires
        outcome matches SaveAsDialogOutcome::Chosen(p) ==> call_requires(save_to_path, (p,)),
    ensures
        outcome is Cancelled ==> r == Ok::<Option<T>, String>(None),
        outcome matches SaveAsDialogOutcome::Chosen(p) ==> exists|w: Result<T, String>|
            #[trigger] call_ensures(save_to_path, (p,), w) && r == lift_written(w),
        outcome matches SaveAsDialogOutcome::Denied { requested } ==> r matches Err(m) && m@
            == write_failure_message(requested@),
        outcome matches SaveAsDialogOutcome::Redirected { requested, .. } ==> r matches Err(m)
            && m@ == write_failure_message(requested@),
{
    match outcome {
        SaveAsDialogOutcome::Cancelled => Ok(None),
        SaveAsDialogOutcome::Chosen(path) => {
            let w = save_to_path(path);
            let r = match w {
                Ok(t) => Ok(Some(t)),
                Err(e) => Err(e),
            };
            assert(r == lift_written(w));
            r
        },
        SaveAsDialogOutcome::Denied { requested } => Err(write_failure(&requested)),
        SaveAsDialogOutcome::Redirected { requested, redirected: _ } => Err(
            write_failure(&requested),
        ),
    }
}

fn write_failure(requested: &str) -> (m: String)
    ensures
        m@ == write_failure_message(requested@),
{
    let mut m = String::new();
    m.append("failed to write SGF file ");
    m.append(requested);
    m.append(": access denied");
    proof {
        reveal_strlit("failed to write SGF file ");
        reveal_strlit(": access denied");
    }
    assert(m@ =~= write_failure_message(requested@));
    m
}

/// The character sequence of an optional string.
pub open spec fn opt_view(s: Option<String>) -> Option<Seq<char>> {
    match s {
        Some(x) => Some(x@),
        None => None,
    }
}

/// The character sequences of a list of character vectors.
pub open spec fn pieces_view(v: Seq<Vec<char>>) -> Seq<Seq<char>> {
    v.map_values(|p: Vec<char>| p@)
}

/// The rules by which paths are read: those of Unix, or those of Windows.
#[derive(Debug, Clone, Copy, PartialEq, Eq, Structural)]
pub enum PathStyle {
    Unix,
    Windows,
}

/// Which characters separate path pieces.
#[derive(Debug, Clone, Copy, PartialEq, Eq, Structural)]
pub enum Seps {
    /// Only `/`.
    Slash,
    /// `/` and `\`.
    Both,
    /// Only `\`, as in a verbatim Windows path.
    Backslash,
}

/// Whether `c` separates path pieces under `seps`.
pub open spec fn is_sep(c: char, seps: Seps) -> bool {
    match seps {
        Seps::Slash => c == '/',
        Seps::Both => c == '/' || c == '\\',
        Seps::Backslash => c == '\\',
    }
}

/// A path piece that names something: not empty, `.` or `..`.
pub open spec fn keeps_piece(p: Seq<char>) -> bool {
    p != Seq::<char>::empty() && p != seq!['.'] && p != seq!['.', '.']
}

/// Splitting `s` at separators, left to right: the finished named pieces
/// (lower-cased) and the piece still open at the end of `s`.
pub open spec fn piece_state(s: Seq<char>, seps: Seps) -> (Seq<Seq<char>>, Seq<char>)
    decreases s.len(),
{
    if s.len() == 0 {
        (Seq::empty(), Seq::empty())
    } else {
        let (done, cur) = piece_state(s.drop_last(), seps);
        let c = s.last();
        if is_sep(c, seps) {
            (if keeps_piece(cur) { done.push(cur) } else { done }, Seq::empty())
        } else {
            (done, cur.push(lower_char(c)))
        }
    }
}

/// The lower-cased named pieces of `s` between separators, in order.
pub open spec fn segments(s: Seq<char>, seps: Seps) -> Seq<Seq<char>> {
    let (done, cur) = piece_state(s, seps);
    if keeps_piece(cur) {
        done.push(cur)
    } else {
        done
    }
}

/// The comparison key of a path read by Unix rules: `/` for a root, then
/// its lower-cased normal components (current- and parent-directory
/// components are left out).
pub open spec fn path_key(s: Seq<char>) -> Seq<Seq<char>> {
    if s.len() > 0 && s[0] == '/' {
        seq![seq!['/']] + segments(s, Seps::Slash)
    } else {
        segments(s, Seps::Slash)
    }
}

/// An ASCII letter.
pub open spec fn ascii_letter(c: char) -> bool {
    ('a' <= c && c <= 'z') || ('A' <= c && c <= 'Z')
}

/// The first separator under `seps` at or after `i`, or the length of `s`.
pub open spec fn first_sep(s: Seq<char>, i: int, seps: Seps) -> int
    decreases s.len() - i,
{
    if i < 0 || i >= s.len() {
        s.len() as int
    } else if is_sep(s[i], seps) {
        i
    } else {
        first_sep(s, i + 1, seps)
    }
}

/// The prefix of a path read by Windows rules, as std's `Prefix` documents
/// its forms: its length, whether it is verbatim (`\\?\`, where only `\`
/// separates), and whether it roots the path by itself (every prefix but a
/// drive). The forms: `\\?\UNC\server\share`, `\\?\C:`, `\\?\name`,
/// `\\.\device`, `\\server\share` (server and share not empty) and
/// `C:`; any other path has no prefix.
pub open spec fn win_prefix(s: Seq<char>) -> (int, bool, bool) {
    let bs = '\\';
    if s.len() >= 4 && s[0] == bs && s[1] == bs && s[2] == '?' && s[3] == bs {
        if s.len() >= 8 && s[4] == 'U' && s[5] == 'N' && s[6] == 'C' && s[7] == bs {
            let a = first_sep(s, 8, Seps::Backslash);
            if a < s.len() && first_sep(s, a + 1, Seps::Backslash) > a + 1 {
                (first_sep(s, a + 1, Seps::Backslash), true, true)
            } else {
                (a, true, true)
            }
        } else if s.len() >= 6 && ascii_letter(s[4]) && s[5] == ':' && (s.len() == 6 || s[6]
            == bs) {
            (6, true, true)
        } else {
            (first_sep(s, 4, Seps::Backslash), true, true)
        }
    } else if s.len() >= 4 && s[0] == bs && s[1] == bs && s[2] == '.' && s[3] == bs {
        (first_sep(s, 4, Seps::Both), false, true)
    } else if s.len() >= 2 && s[0] == bs && s[1] == bs {
        let a = first_sep(s, 2, Seps::Both);
        if a > 2 && a < s.len() && first_sep(s, a + 1, Seps::Both) > a + 1 {
            (first_sep(s, a + 1, Seps::Both), false, true)
        } else {
            (0, false, false)
        }
    } else if s.len() >= 2 && ascii_letter(s[0]) && s[1] == ':' {
        (2, false, false)
    } else {
        (0, false, false)
    }
}

/// The comparison key of a path read by Windows rules: the lower-cased
/// prefix, `/` for a root (a separator after the prefix, or a prefix other
/// than a drive that is not verbatim), then the lower-cased normal
/// components between separators (`/` and `\`, only `\` after a verbatim
/// prefix).
pub open spec fn win_path_key(s: Seq<char>) -> Seq<Seq<char>> {
    let (n, verbatim, implicit_root) = win_prefix(s);
    let seps = if verbatim {
        Seps::Backslash
    } else {
        Seps::Both
    };
    let rest = s.skip(n);
    let physical_root = rest.len() > 0 && is_sep(rest[0], seps);
    (if n > 0 {
        seq![lower(s.take(n))]
    } else {
        Seq::empty()
    }) + (if physical_root || (implicit_root && !verbatim) {
        seq![seq!['/']]
    } else {
        Seq::empty()
    }) + segments(rest, seps)
}

/// The comparison key of a path read by the rules of `style`.
pub open spec fn path_key_in(style: PathStyle, s: Seq<char>) -> Seq<Seq<char>> {
    match style {
        PathStyle::Unix => path_key(s),
        PathStyle::Windows => win_path_key(s),
    }
}

/// Two dialog paths name the same file under the path rules of `style`, up
/// to surrounding whitespace and ASCII case.
pub open spec fn same_save_path_spec(style: PathStyle, left: Seq<char>, right: Seq<char>) -> bool {
    path_key_in(style, trim(left)) == path_key_in(style, trim(right))
}

pub open spec fn users_piece() -> Seq<char> {
    seq!['u', 's', 'e', 'r', 's']
}

/// The folders a Windows shell falls back to for a user: `...\Users\<name>`,
/// or its `Documents` or `Desktop`, counted from the first `users` piece.
pub open spec fn is_fallback_parent_spec(parent: Seq<Seq<char>>) -> bool {
    exists|u: int|
        #![trigger parent[u]]
        0 <= u < parent.len() && parent[u] == users_piece() && (forall|j: int|
            0 <= j < u ==> parent[j] != users_piece()) && ({
            let rest = parent.subrange(u + 1, parent.len() as int);
            rest.len() == 1 || (rest.len() == 2 && (rest[1] == seq![
                'd',
                'o',
                'c',
                'u',
                'm',
                'e',
                'n',
                't',
                's',
            ] || rest[1] == seq!['d', 'e', 's', 'k', 't', 'o', 'p']))
        })
}

/// The returned path keeps the requested file name but sits in a user folder
/// that Windows substitutes for a folder it may not write.
pub open spec fn looks_like_redirect_spec(requested: Seq<char>, returned: Seq<char>) -> bool {
    let rp = segments(trim(requested), Seps::Both);
    let tp = segments(trim(returned), Seps::Both);
    rp.len() > 0 && tp.len() > 0 && rp.last() == tp.last() && is_fallback_parent_spec(
        tp.drop_last(),
    )
}

/// What a session ends with under the path rules of `style`, from the path
/// the app could not write (if any) and the path the dialog returned (if
/// any).
pub open spec fn classify_spec(
    style: PathStyle,
    requested: Option<Seq<char>>,
    returned: Option<Seq<char>>,
) -> SaveAsOutcomeView {
    match (requested, returned) {
        (_, None) => SaveAsOutcomeView::Cancelled,
        (None, Some(p)) => SaveAsOutcomeView::Chosen(p),
        (Some(q), Some(p)) => if same_save_path_spec(style, q, p) {
            SaveAsOutcomeView::Chosen(p)
        } else if looks_like_redirect_spec(q, p) {
            SaveAsOutcomeView::Redirected(q, p)
        } else {
            SaveAsOutcomeView::Chosen(p)
        },
    }
}

/// `std::path::MAIN_SEPARATOR`: the main path separator of the platform the
/// program was built for. Nothing is stated of it: it is a property of the
/// platform.
#[verifier::external_body]
fn main_separator() -> (r: char) {
    std::path::MAIN_SEPARATOR
}

/// The path rules of the platform: Windows rules where the main separator
/// is `\`, Unix rules elsewhere.
fn host_path_style() -> PathStyle {
    if main_separator() == '\\' {
        PathStyle::Windows
    } else {
        PathStyle::Unix
    }
}

/// What a session ends with, as `classify_save_as_session_in` gives it under
/// the path rules of the platform the program runs on: Unix rules or
/// Windows rules.
pub fn classify_save_as_session(requested_unwritable: Option<String>, returned: Option<String>) -> (r:
    SaveAsDialogOutcome)
    ensures
        r@ == classify_spec(PathStyle::Unix, opt_view(requested_unwritable), opt_view(returned))
            || r@ == classify_spec(
            PathStyle::Windows,
            opt_view(requested_unwritable),
            opt_view(returned),
        ),
{
    let style = host_path_style();
    classify_save_as_session_in(style, requested_unwritable, returned)
}

/// What a session ends with under the path rules of `style`: cancelled
/// without a returned path; otherwise the returned path is chosen, unless it
/// differs from the path the app could not write and looks like the Windows
/// shell's redirect of it into a user folder.
pub fn classify_save_as_session_in(
    style: PathStyle,
    requested_unwritable: Option<String>,
    returned: Option<String>,
) -> (r: SaveAsDialogOutcome)
    ensures
        r@ == classify_spec(style, opt_view(requested_unwritable), opt_view(returned)),
{
    match (requested_unwritable, returned) {
        (_, None) => SaveAsDialogOutcome::Cancelled,
        (None, Some(path)) => SaveAsDialogOutcome::Chosen(path),
        (Some(requested), Some(returned)) => {
            if same_save_path(style, &requested, &returned) {
                SaveAsDialogOutcome::Chosen(returned)
            } else if looks_like_user_folder_redirect(&requested, &returned) {
                SaveAsDialogOutcome::Redirected { requested, redirected: returned }
            } else {
                SaveAsDialogOutcome::Chosen(returned)
            }
        },
    }
}

fn same_save_path(style: PathStyle, left: &str, right: &str) -> (r: bool)
    ensures
        r == same_save_path_spec(style, left@, right@),
{
    let l = trim_chars(&chars_of(left));
    let r = trim_chars(&chars_of(right));
    let lk = path_key_in_of(style, &l);
    let rk = path_key_in_of(style, &r);
    pieces_eq(&lk, &rk)
}

fn looks_like_user_folder_redirect(requested: &str, returned: &str) -> (r: bool)
    ensures
        r == looks_like_redirect_spec(requested@, returned@),
{
    let requested_parts = win_path_segments(requested);
    let returned_parts = win_path_segments(returned);
    if requested_parts.len() == 0 || returned_parts.len() == 0 {
        return false;
    }
    if !chars_eq(&requested_parts[requested_parts.len() - 1], &returned_parts[returned_parts.len() - 1]) {
        return false;
    }
    let mut parent = returned_parts;
    let ghost before = parent@;
    parent.pop();
    assert(pieces_view(parent@) =~= pieces_view(before).drop_last());
    is_windows_shell_fallback_parent(&parent)
}

fn win_path_segments(path: &str) -> (r: Vec<Vec<char>>)
    ensures
        pieces_view(r@) == segments(trim(path@), Seps::Both),
{
    let t = trim_chars(&chars_of(path));
    split_segments(&t, Seps::Both)
}

/// The comparison key of a (trimmed) path, as `path_key` states it.
fn path_key_of(v: &Vec<char>) -> (r: Vec<Vec<char>>)
    ensures
        pieces_view(r@) == path_key(v@),
{
    let mut segs = split_segments(v, Seps::Slash);
    if v.len() > 0 && v[0] == '/' {
        let slash = vec!['/'];
        assert(slash@ =~= seq!['/']);
        let mut r: Vec<Vec<char>> = Vec::new();
        r.push(slash);
        let ghost tail = segs@;
        r.append(&mut segs);
        assert(pieces_view(r@) =~= seq![seq!['/']] + pieces_view(tail));
        r
    } else {
        segs
    }
}

fn keeps_piece_exec(p: &Vec<char>) -> (r: bool)
    ensures
        r == keeps_piece(p@),
{
    if p.len() == 0 {
        assert(p@ =~= Seq::<char>::empty());
        false
    } else if p.len() == 1 && p[0] == '.' {
        assert(p@ =~= seq!['.']);
        false
    } else if p.len() == 2 && p[0] == '.' && p[1] == '.' {
        assert(p@ =~= seq!['.', '.']);
        false
    } else {
        assert(p@.len() == 1 ==> p@ != seq!['.']);
        assert(p@.len() == 2 ==> p@ != seq!['.', '.']);
        true
    }
}

fn sep_exec(c: char, seps: Seps) -> (r: bool)
    ensures
        r == is_sep(c, seps),
{
    match seps {
        Seps::Slash => c == '/',
        Seps::Both => c == '/' || c == '\\',
        Seps::Backslash => c == '\\',
    }
}

proof fn lemma_first_sep_bounds(s: Seq<char>, i: int, seps: Seps)
    requires
        0 <= i <= s.len(),
    ensures
        i <= first_sep(s, i, seps) <= s.len(),
        first_sep(s, i, seps) < s.len() ==> is_sep(s[first_sep(s, i, seps)], seps),
    decreases s.len() - i,
{
    if i < s.len() {
        lemma_first_sep_bounds(s, i + 1, seps);
    }
}

fn first_sep_exec(v: &Vec<char>, i: usize, seps: Seps) -> (r: usize)
    requires
        i <= v.len(),
    ensures
        r as int == first_sep(v@, i as int, seps),
        i <= r <= v.len(),
{
    proof {
        lemma_first_sep_bounds(v@, i as int, seps);
    }
    let mut k = i;
    while k < v.len()
        invariant
            i <= k <= v.len(),
            first_sep(v@, i as int, seps) == first_sep(v@, k as int, seps),
        decreases v.len() - k,
    {
        if sep_exec(v[k], seps) {
            return k;
        }
        k += 1;
    }
    k
}

fn letter_exec(c: char) -> (r: bool)
    ensures
        r == ascii_letter(c),
{
    ('a' <= c && c <= 'z') || ('A' <= c && c <= 'Z')
}

fn win_prefix_exec(v: &Vec<char>) -> (r: (usize, bool, bool))
    ensures
        (r.0 as int, r.1, r.2) == win_prefix(v@),
        r.0 <= v.len(),
{
    let n = v.len();
    if n >= 4 && v[0] == '\\' && v[1] == '\\' && v[2] == '?' && v[3] == '\\' {
        if n >= 8 && v[4] == 'U' && v[5] == 'N' && v[6] == 'C' && v[7] == '\\' {
            let a = first_sep_exec(v, 8, Seps::Backslash);
            if a < n {
                let b = first_sep_exec(v, a + 1, Seps::Backslash);
                if b > a + 1 {
                    return (b, true, true);
                }
            }
            (a, true, true)
        } else if n >= 6 && letter_exec(v[4]) && v[5] == ':' && (n == 6 || v[6] == '\\') {
            (6, true, true)
        } else {
            (first_sep_exec(v, 4, Seps::Backslash), true, true)
        }
    } else if n >= 4 && v[0] == '\\' && v[1] == '\\' && v[2] == '.' && v[3] == '\\' {
        (first_sep_exec(v, 4, Seps::Both), false, true)
    } else if n >= 2 && v[0] == '\\' && v[1] == '\\' {
        let a = first_sep_exec(v, 2, Seps::Both);
        if a > 2 && a < n {
            let b = first_sep_exec(v, a + 1, Seps::Both);
            if b > a + 1 {
                return (b, false, true);
            }
        }
        (0, false, false)
    } else if n >= 2 && letter_exec(v[0]) && v[1] == ':' {
        (2, false, false)
    } else {
        (0, false, false)
    }
}

/// The characters of `v` from `from` up to `to`.
fn slice_chars(v: &Vec<char>, from: usize, to: usize) -> (r: Vec<char>)
    requires
        from <= to <= v.len(),
    ensures
        r@ == v@.subrange(from as int, to as int),
{
    let mut r: Vec<char> = Vec::new();
    let mut k = from;
    while k < to
        invariant
            from <= k <= to <= v.len(),
            r@ == v@.subrange(from as int, k as int),
        decreases to - k,
    {
        r.push(v[k]);
        assert(r@ =~= v@.subrange(from as int, k + 1));
        k += 1;
    }
    r
}

/// The comparison key of a (trimmed) path read by Windows rules, as
/// `win_path_key` states it.
fn win_path_key_of(v: &Vec<char>) -> (r: Vec<Vec<char>>)
    ensures
        pieces_view(r@) == win_path_key(v@),
{
    let (n, verbatim, implicit_root) = win_prefix_exec(v);
    let seps = if verbatim {
        Seps::Backslash
    } else {
        Seps::Both
    };
    let rest = slice_chars(v, n, v.len());
    assert(rest@ =~= v@.skip(n as int));
    let physical_root = rest.len() > 0 && sep_exec(rest[0], seps);
    let mut r: Vec<Vec<char>> = Vec::new();
    let ghost k0: Seq<Seq<char>> = if n > 0 {
        seq![lower(v@.take(n as int))]
    } else {
        Seq::empty()
    };
    if n > 0 {
        let head = slice_chars(v, 0, n);
        assert(head@ =~= v@.take(n as int));
        let low = lower_chars(&head);
        r.push(low);
    }
    assert(pieces_view(r@) =~= k0);
    let ghost k1: Seq<Seq<char>> = if physical_root || (implicit_root && !verbatim) {
        seq![seq!['/']]
    } else {
        Seq::empty()
    };
    if physical_root || (implicit_root && !verbatim) {
        let slash = vec!['/'];
        assert(slash@ =~= seq!['/']);
        r.push(slash);
    }
    assert(pieces_view(r@) =~= k0 + k1);
    let mut segs = split_segments(&rest, seps);
    let ghost tail = segs@;
    let ghost before = r@;
    r.append(&mut segs);
    assert(r@ =~= before + tail);
    assert(pieces_view(r@) =~= k0 + k1 + pieces_view(tail));
    r
}

/// The comparison key of a (trimmed) path under the rules of `style`.
fn path_key_in_of(style: PathStyle, v: &Vec<char>) -> (r: Vec<Vec<char>>)
    ensures
        pieces_view(r@) == path_key_in(style, v@),
{
    match style {
        PathStyle::Unix => path_key_of(v),
        PathStyle::Windows => win_path_key_of(v),
    }
}

/// Splits at separators, keeps the named pieces and lower-cases them.
fn split_segments(v: &Vec<char>, seps: Seps) -> (r: Vec<Vec<char>>)
    ensures
        pieces_view(r@) == segments(v@, seps),
{
    let mut done: Vec<Vec<char>> = Vec::new();
    let mut cur: Vec<char> = Vec::new();
    let mut i: usize = 0;
    while i < v.len()
        invariant
            i <= v.len(),
            (pieces_view(done@), cur@) == piece_state(v@.take(i as int), seps),
        decreases v.len() - i,
    {
        let c = v[i];
        assert(v@.take(i + 1).drop_last() =~= v@.take(i as int));
        if sep_exec(c, seps) {
            if keeps_piece_exec(&cur) {
                done.push(cur);
                assert(pieces_view(done@) =~= piece_state(v@.take(i + 1), seps).0);
            }
            cur = Vec::new();
            assert(cur@ =~= Seq::<char>::empty());
        } else {
            let l = lower_ascii_char(c);
            cur.push(l);
        }
        i += 1;
    }
    assert(v@.take(v.len() as int) =~= v@);
    if keeps_piece_exec(&cur) {
        done.push(cur);
        assert(pieces_view(done@) =~= segments(v@, seps));
    }
    done
}

/// Whether two piece lists are equal.
fn pieces_eq(a: &Vec<Vec<char>>, b: &Vec<Vec<char>>) -> (r: bool)
    ensures
        r == (pieces_view(a@) == pieces_view(b@)),
{
    if a.len() != b.len() {
        assert(pieces_view(a@).len() != pieces_view(b@).len());
        return false;
    }
    let mut i: usize = 0;
    while i < a.len()
        invariant
            i <= a.len(),
            a.len() == b.len(),
            forall|j: int| 0 <= j < i ==> pieces_view(a@)[j] == pieces_view(b@)[j],
        decreases a.len() - i,
    {
        if !chars_eq(&a[i], &b[i]) {
            assert(pieces_view(a@)[i as int] != pieces_view(b@)[i as int]);
            return false;
        }
        i += 1;
    }
    assert(pieces_view(a@) =~= pieces_view(b@));
    true
}

fn users_vec() -> (r: Vec<char>)
    ensures
        r@ == users_piece(),
{
    let r = vec!['u', 's', 'e', 'r', 's'];
    assert(r@ =~= users_piece());
    r
}

fn is_windows_shell_fallback_parent(parent: &Vec<Vec<char>>) -> (r: bool)
    ensures
        r == is_fallback_parent_spec(pieces_view(parent@)),
{
    let users = users_vec();
    let ghost p = pieces_view(parent@);
    let mut u: usize = 0;
    let mut found = false;
    while u < parent.len() && !found
        invariant
            u <= parent.len(),
            p == pieces_view(parent@),
            users@ == users_piece(),
            found ==> u < parent.len() && p[u as int] == users_piece(),
            forall|j: int| 0 <= j < u ==> p[j] != users_piece(),
        decreases parent.len() - u + (if found { 0int } else { 1int }),
    {
        if chars_eq(&parent[u], &users) {
            found = true;
        } else {
            u += 1;
        }
    }
    if !found {
        return false;
    }
    assert(p[u as int] == users_piece());
    let rest_len = parent.len() - u - 1;
    let ghost rest = p.subrange(u + 1, p.len() as int);
    let documents = vec!['d', 'o', 'c', 'u', 'm', 'e', 'n', 't', 's'];
    let desktop = vec!['d', 'e', 's', 'k', 't', 'o', 'p'];
    assert(documents@ =~= seq!['d', 'o', 'c', 'u', 'm', 'e', 'n', 't', 's']);
    assert(desktop@ =~= seq!['d', 'e', 's', 'k', 't', 'o', 'p']);
    let r = if rest_len == 1 {
        true
    } else if rest_len == 2 {
        let folder = &parent[u + 2];
        assert(folder@ == rest[1]);
        chars_eq(folder, &documents) || chars_eq(folder, &desktop)
    } else {
        false
    };
    proof {
        if r {
            assert(is_fallback_parent_spec(p));
        } else {
            if is_fallback_parent_spec(p) {
                let w = choose|w: int|
                    #![trigger p[w]]
                    0 <= w < p.len() && p[w] == users_piece() && (forall|j: int|
                        0 <= j < w ==> p[j] != users_piece()) && ({
                        let rest = p.subrange(w + 1, p.len() as int);
                        rest.len() == 1 || (rest.len() == 2 && (rest[1] == seq![
                            'd',
                            'o',
                            'c',
                            'u',
                            'm',
                            'e',
                            'n',
                            't',
                            's',
                        ] || rest[1] == seq!['d', 'e', 's', 'k', 't', 'o', 'p']))
                    });
                assert(w == u as int);
            }
        }
    }
    r
}

/// A session ends cancelled exactly when the dialog returned no path. Any
/// other session carries the returned path, and is never refused: it is
/// chosen, or reported as a redirect of the path the app could not write.
pub proof fn sessions_keep_the_returned_path(
    style: PathStyle,
    requested: Option<Seq<char>>,
    returned: Option<Seq<char>>,
)
    ensures
        classify_spec(style, requested, returned) is Cancelled <==> returned is None,
        classify_spec(style, requested, returned) !is Denied,
        returned matches Some(p) ==> (classify_spec(style, requested, returned)
            == SaveAsOutcomeView::Chosen(p) || (requested matches Some(q) && classify_spec(
            style,
            requested,
            returned,
        ) == SaveAsOutcomeView::Redirected(q, p))),
{
}

/// When the dialog hands back the very path the app could not write, that
/// path is chosen.
pub proof fn returning_the_requested_path_chooses_it(style: PathStyle, requested: Seq<char>)
    ensures
        classify_spec(style, Some(requested), Some(requested)) == SaveAsOutcomeView::Chosen(
            requested,
        ),
{
}

} // verus!
