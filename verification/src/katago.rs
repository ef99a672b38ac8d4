//! The KataGo analysis protocol: board coordinates in both directions, the
//! turns a batch query analyses, and the control line that stops a query.
use vstd::prelude::*;
use crate::model::{
    bits_view, clone_bits, AnalysisFrameDto, AnalysisFrameView, CandidateMoveDto, CandidateMoveView,
    GameDto, MoveDto, MoveVertex, PlayerColor, PointDto, StoneDto,
};
use crate::preferences::ContinuousAnalysisBudgetDto;
use crate::text::{
    chars_of, lower, lower_ascii_char, lower_char, push_char, upper_ascii_char, upper_char,
};

verus! {

broadcast use vstd::string::group_string_axioms;

/// The error of parsing a JSON text.
#[verifier::external_type_specification]
#[verifier::external_body]
pub struct ExJsonError(serde_json::Error);

/// A move as KataGo takes it: the colour (`B` or `W`) and the vertex.
pub type KataMove = (String, String);

#[derive(Debug)]
pub enum ProtocolError {
    Json(serde_json::Error),
    Engine(String),
    InvalidVertex { x: u8, y: u8, board_size: u8 },
}

#[derive(Debug, Clone)]
pub struct AnalysisQueryOptions {
    pub id: String,
    pub rules: String,
    pub turn: u32,
    pub max_visits: Option<u32>,
    pub include_ownership: Option<bool>,
    pub include_policy: Option<bool>,
}

#[derive(Debug, Clone)]
pub struct AnalysisBatchQueryOptions {
    pub id: String,
    pub rules: String,
    pub analyze_turns: Option<Vec<u32>>,
    pub max_visits: Option<u32>,
    pub include_ownership: Option<bool>,
    pub include_policy: Option<bool>,
}

pub open spec fn color_letter(color: PlayerColor) -> Seq<char> {
    match color {
        PlayerColor::Black => seq!['B'],
        PlayerColor::White => seq!['W'],
    }
}

pub fn player_color_to_kata(color: PlayerColor) -> (r: &'static str)
    ensures
        r@ == color_letter(color),
{
    proof {
        reveal_strlit("B");
        reveal_strlit("W");
    }
    match color {
        PlayerColor::Black => "B",
        PlayerColor::White => "W",
    }
}

/// The decimal digit of `d < 10`.
pub open spec fn digit_char(d: int) -> char {
    ((d + 48) as u32) as char
}

/// The decimal numeral of `n`, without leading zeros.
pub open spec fn decimal(n: nat) -> Seq<char>
    decreases n,
{
    if n < 10 {
        seq![digit_char(n as int)]
    } else {
        decimal(n / 10).push(digit_char((n % 10) as int))
    }
}

/// The column letter of `x`: `A` onwards, skipping `I`.
pub open spec fn column_char(x: u8) -> char {
    if x >= 8 {
        ((65 + x + 1) as u32) as char
    } else {
        ((65 + x) as u32) as char
    }
}

/// Column arithmetic overflows a byte from column 190 on.
pub open spec fn column_overflows(point: PointDto, board_size: u8) -> bool {
    point.x < board_size && point.y < board_size && point.x >= 190
}

/// The KataGo vertex of an on-board point: its column letter, then its row
/// counted from the bottom edge.
pub open spec fn kata_coordinate(point: PointDto, board_size: u8) -> Seq<char> {
    seq![column_char(point.x)] + decimal((board_size - point.y) as nat)
}

fn digit_of(d: u8) -> (c: char)
    requires
        d < 10,
    ensures
        c == digit_char(d as int),
{
    let b: u8 = d + 48;
    b as char
}

/// Appends the decimal numeral of `n`.
fn push_decimal(s: &mut String, n: u8)
    ensures
        final(s)@ == old(s)@ + decimal(n as nat),
    decreases n,
{
    if n < 10 {
        push_char(s, digit_of(n));
        assert(decimal(n as nat) == seq![digit_char(n as int)]);
        assert(old(s)@.push(digit_char(n as int)) =~= old(s)@ + seq![digit_char(n as int)]);
    } else {
        push_decimal(s, n / 10);
        push_char(s, digit_of(n % 10));
        assert(decimal(n as nat) == decimal((n / 10) as nat).push(digit_char((n % 10) as int)));
    }
}

/// Appends the decimal numeral of `n`.
pub fn push_decimal_u64(s: &mut String, n: u64)
    ensures
        final(s)@ == old(s)@ + decimal(n as nat),
    decreases n,
{
    if n < 10 {
        push_char(s, digit_of(n as u8));
        assert(old(s)@.push(digit_char(n as int)) =~= old(s)@ + seq![digit_char(n as int)]);
    } else {
        push_decimal_u64(s, n / 10);
        push_char(s, digit_of((n % 10) as u8));
        assert(decimal(n as nat) == decimal((n / 10) as nat).push(digit_char((n % 10) as int)));
    }
}

pub fn point_to_kata_coordinate(point: &PointDto, board_size: u8) -> (r: Result<
    String,
    ProtocolError,
>)
    requires
        !column_overflows(*point, board_size),
    ensures
        (point.x >= board_size || point.y >= board_size) <==> r is Err,
        r matches Err(e) ==> e == (ProtocolError::InvalidVertex {
            x: point.x,
            y: point.y,
            board_size,
        }),
        r matches Ok(s) ==> s@ == kata_coordinate(*point, board_size),
{
    if point.x >= board_size || point.y >= board_size {
        return Err(ProtocolError::InvalidVertex { x: point.x, y: point.y, board_size });
    }
    let col: u8 = if point.x >= 8 {
        65 + point.x + 1
    } else {
        65 + point.x
    };
    let mut s = String::new();
    push_char(&mut s, col as char);
    let row: u8 = board_size - point.y;
    push_decimal(&mut s, row);
    assert(s@ =~= kata_coordinate(*point, board_size));
    Ok(s)
}

/// KataGo's word for a pass.
pub open spec fn pass_word() -> Seq<char> {
    seq!['p', 'a', 's', 's']
}

pub open spec fn kata_vertex(vertex: MoveVertex, board_size: u8) -> Result<Seq<char>, ()> {
    match vertex {
        MoveVertex::Pass => Ok(pass_word()),
        MoveVertex::Point(p) => if p.x >= board_size || p.y >= board_size {
            Err(())
        } else {
            Ok(kata_coordinate(p, board_size))
        },
    }
}

pub open spec fn vertex_overflows(vertex: MoveVertex, board_size: u8) -> bool {
    vertex matches MoveVertex::Point(p) && column_overflows(p, board_size)
}

pub fn move_vertex_to_kata_coordinate(vertex: &MoveVertex, board_size: u8) -> (r: Result<
    String,
    ProtocolError,
>)
    requires
        !vertex_overflows(*vertex, board_size),
    ensures
        r is Err <==> kata_vertex(*vertex, board_size) is Err,
        r matches Ok(s) ==> Ok::<Seq<char>, ()>(s@) == kata_vertex(*vertex, board_size),
        r matches Err(e) ==> vertex matches MoveVertex::Point(p) && e == (
        ProtocolError::InvalidVertex { x: p.x, y: p.y, board_size }),
{
    match vertex {
        MoveVertex::Pass => {
            let s = String::from_str("pass");
            proof {
                reveal_strlit("pass");
            }
            assert(s@ =~= pass_word());
            Ok(s)
        },
        MoveVertex::Point(point) => point_to_kata_coordinate(point, board_size),
    }
}

pub fn move_dto_to_kata_move(move_: &MoveDto, board_size: u8) -> (r: Result<
    KataMove,
    ProtocolError,
>)
    requires
        !vertex_overflows(move_.vertex, board_size),
    ensures
        r is Err <==> kata_vertex(move_.vertex, board_size) is Err,
        r matches Ok(m) ==> m.0@ == color_letter(move_.color) && Ok::<Seq<char>, ()>(m.1@) == kata_vertex(
            move_.vertex,
            board_size,
        ),
        r matches Err(e) ==> move_.vertex matches MoveVertex::Point(p) && e == (
        ProtocolError::InvalidVertex { x: p.x, y: p.y, board_size }),
{
    let vertex = move_vertex_to_kata_coordinate(&move_.vertex, board_size)?;
    Ok((String::from_str(player_color_to_kata(move_.color)), vertex))
}

pub open spec fn is_digit(c: char) -> bool {
    '0' <= c && c <= '9'
}

pub open spec fn all_digits(s: Seq<char>) -> bool {
    forall|i: int| 0 <= i < s.len() ==> is_digit(#[trigger] s[i])
}

/// The number that a string of decimal digits denotes.
pub open spec fn digits_value(s: Seq<char>) -> nat
    decreases s.len(),
{
    if s.len() == 0 {
        0
    } else {
        digits_value(s.drop_last()) * 10 + ((s.last() as u32) - 48) as nat
    }
}

/// `str::parse::<u8>`: an optional `+`, then one or more decimal digits
/// denoting at most 255.
pub open spec fn parse_u8(s: Seq<char>) -> Option<u8> {
    let d = if s.len() > 0 && s[0] == '+' {
        s.drop_first()
    } else {
        s
    };
    if d.len() == 0 || !all_digits(d) || digits_value(d) > 255 {
        None
    } else {
        Some(digits_value(d) as u8)
    }
}

proof fn lemma_digits_value_grows(s: Seq<char>, k: int)
    requires
        0 <= k <= s.len(),
        all_digits(s),
    ensures
        digits_value(s) >= digits_value(s.take(k)),
    decreases s.len(),
{
    if k < s.len() {
        assert(all_digits(s.drop_last()));
        assert(s.drop_last().take(k) =~= s.take(k));
        lemma_digits_value_grows(s.drop_last(), k);
    } else {
        assert(s.take(k) =~= s);
    }
}

/// Parses the decimal row of a GTP vertex as `str::parse::<u8>` does.
fn parse_u8_chars(v: &Vec<char>, start: usize) -> (r: Option<u8>)
    requires
        start <= v.len(),
    ensures
        r == parse_u8(v@.skip(start as int)),
{
    let ghost s = v@.skip(start as int);
    let mut i: usize = start;
    if i < v.len() && v[i] == '+' {
        i += 1;
    }
    let ghost d = v@.skip(i as int);
    assert(d =~= (if s.len() > 0 && s[0] == '+' {
        s.drop_first()
    } else {
        s
    }));
    assert(parse_u8(s) == (if d.len() == 0 || !all_digits(d) || digits_value(d) > 255 {
        None
    } else {
        Some(digits_value(d) as u8)
    }));
    if i == v.len() {
        assert(d.len() == 0);
        return None;
    }
    let begin = i;
    let mut value: u32 = 0;
    while i < v.len()
        invariant
            begin <= i <= v.len(),
            start <= begin,
            s == v@.skip(start as int),
            d == v@.skip(begin as int),
            parse_u8(s) == (if d.len() == 0 || !all_digits(d) || digits_value(d) > 255 {
                None
            } else {
                Some(digits_value(d) as u8)
            }),
            d.len() > 0,
            all_digits(d.take(i - begin)),
            value as nat == digits_value(d.take(i - begin)),
            value <= 255,
        decreases v.len() - i,
    {
        let c = v[i];
        if c < '0' || c > '9' {
            assert(d[i - begin] == v@[i as int]);
            assert(!is_digit(d[i - begin]));
            assert(!all_digits(d));
            return None;
        }
        let dv: u32 = (c as u32) - 48;
        let ghost k = i - begin;
        assert(d[k] == c);
        assert(d.take(k + 1).drop_last() =~= d.take(k));
        assert(d.take(k + 1).last() == c);
        assert(digits_value(d.take(k + 1)) == digits_value(d.take(k)) * 10 + dv);
        value = value * 10 + dv;
        i += 1;
        assert(all_digits(d.take(i - begin)));
        if value > 255 {
            proof {
                if all_digits(d) {
                    lemma_digits_value_grows(d, i - begin);
                }
            }
            return None;
        }
    }
    assert(d.take(i - begin) =~= d);
    Some(value as u8)
}

/// `(c as u8)`: the low byte of a character's code point.
pub open spec fn low_byte(c: char) -> u8 {
    ((c as u32) % 256) as u8
}

pub open spec fn sat_sub(a: u8, b: u8) -> u8 {
    if a >= b {
        (a - b) as u8
    } else {
        0
    }
}

/// The point a GTP vertex names on a board, or a pass: `pass` in any case,
/// an empty text, an unparsable row or an off-board result all read as a
/// pass.
pub open spec fn gtp_vertex(v: Seq<char>, board_size: u8) -> MoveVertex {
    if lower(v) == pass_word() || v.len() == 0 {
        MoveVertex::Pass
    } else {
        match parse_u8(v.drop_first()) {
            None => MoveVertex::Pass,
            Some(row) => {
                let col = upper_char(v[0]);
                let skipped: u8 = if col > 'I' {
                    1
                } else {
                    0
                };
                let x = sat_sub(sat_sub(low_byte(col), 65), skipped);
                let y = sat_sub(board_size, row);
                if x >= board_size || y >= board_size {
                    MoveVertex::Pass
                } else {
                    MoveVertex::Point(PointDto { x, y })
                }
            },
        }
    }
}

proof fn lemma_decimal_digits(n: nat)
    ensures
        decimal(n).len() > 0,
        all_digits(decimal(n)),
        digits_value(decimal(n)) == n,
    decreases n,
{
    if n < 10 {
        let s = decimal(n);
        assert(s.drop_last() =~= Seq::<char>::empty());
        assert((digit_char(n as int) as u32) == n + 48);
        assert(digits_value(s.drop_last()) == 0);
        assert(s.last() == digit_char(n as int));
    } else {
        lemma_decimal_digits(n / 10);
        let s = decimal(n / 10);
        let t = s.push(digit_char((n % 10) as int));
        assert(t.drop_last() =~= s);
        assert((digit_char((n % 10) as int) as u32) == n % 10 + 48);
        assert((n / 10) * 10 + n % 10 == n) by (nonlinear_arith);
        assert(t.last() == digit_char((n % 10) as int));
        assert(digits_value(t) == digits_value(s) * 10 + n % 10);
        assert forall|i: int| 0 <= i < t.len() implies is_digit(#[trigger] t[i]) by {
            if i < s.len() {
                assert(t[i] == s[i]);
            }
        }
    }
}

/// Reading back the KataGo vertex of an on-board point gives the point
/// again, in every column whose letter ASCII upper-casing leaves alone
/// (the first 31).
pub proof fn vertex_round_trip(point: PointDto, board_size: u8)
    requires
        point.x < board_size,
        point.y < board_size,
        point.x < 31,
    ensures
        gtp_vertex(kata_coordinate(point, board_size), board_size) == MoveVertex::Point(point),
{
    let v = kata_coordinate(point, board_size);
    let n = (board_size - point.y) as nat;
    lemma_decimal_digits(n);
    let d = decimal(n);
    assert(v.drop_first() =~= d);
    assert(v[0] == column_char(point.x));
    assert(v[1] == d[0]);
    assert(is_digit(d[0]));
    assert(lower(v)[1] == lower_char(v[1]));
    assert(lower(v) != pass_word()) by {
        if lower(v) == pass_word() {
            assert(pass_word()[1] == 'a');
        }
    }
    assert(parse_u8(v.drop_first()) == Some(n as u8));
}

fn is_pass_word(v: &Vec<char>) -> (r: bool)
    ensures
        r == (lower(v@) == pass_word()),
{
    if v.len() != 4 {
        assert(lower(v@).len() != 4);
        return false;
    }
    let a = lower_ascii_char(v[0]);
    let b = lower_ascii_char(v[1]);
    let c = lower_ascii_char(v[2]);
    let d = lower_ascii_char(v[3]);
    let r = a == 'p' && b == 'a' && c == 's' && d == 's';
    assert(lower(v@)[0] == a && lower(v@)[1] == b && lower(v@)[2] == c && lower(v@)[3] == d);
    if r {
        assert(lower(v@) =~= pass_word());
    }
    r
}

fn low_byte_of(c: char) -> (b: u8)
    ensures
        b == low_byte(c),
{
    let n: u32 = c as u32;
    (n % 256) as u8
}

pub fn gtp_vertex_to_dto(vertex: &str, board_size: u8) -> (r: MoveVertex)
    ensures
        r == gtp_vertex(vertex@, board_size),
{
    let v = chars_of(vertex);
    if is_pass_word(&v) || v.len() == 0 {
        return MoveVertex::Pass;
    }
    assert(v@.skip(1) =~= v@.drop_first());
    let row_num = match parse_u8_chars(&v, 1) {
        Some(row) => row,
        None => {
            return MoveVertex::Pass;
        },
    };
    let col_upper = upper_ascii_char(v[0]);
    let skipped_i: u8 = if col_upper > 'I' {
        1
    } else {
        0
    };
    let x = low_byte_of(col_upper).saturating_sub(65).saturating_sub(skipped_i);
    let y = board_size.saturating_sub(row_num);
    if x >= board_size || y >= board_size {
        MoveVertex::Pass
    } else {
        MoveVertex::Point(PointDto { x, y })
    }
}

pub open spec fn is_ascii_alpha(c: char) -> bool {
    ('a' <= c && c <= 'z') || ('A' <= c && c <= 'Z')
}

/// A vertex that a search result may name: `pass` in any case, or a column
/// letter other than I and a row from 1 to the board size, both on the
/// board.
pub open spec fn valid_search_vertex(v: Seq<char>, board_size: u8) -> bool {
    if lower(v) == pass_word() {
        true
    } else if v.len() < 2 || !is_ascii_alpha(v[0]) || upper_char(v[0]) == 'I' {
        false
    } else {
        let col = upper_char(v[0]);
        let x = (col as int) - 65 - (if col > 'I' {
            1int
        } else {
            0int
        });
        &&& x < board_size
        &&& parse_u8(v.drop_first()) matches Some(row) && 0 < row <= board_size
    }
}

/// Whether a search result may name `vertex` on a board of `board_size`.
pub fn is_valid_search_vertex(vertex: &str, board_size: u8) -> (r: bool)
    ensures
        r == valid_search_vertex(vertex@, board_size),
{
    let v = chars_of(vertex);
    if is_pass_word(&v) {
        return true;
    }
    if v.len() < 2 {
        return false;
    }
    let c = v[0];
    let alpha = ('a' <= c && c <= 'z') || ('A' <= c && c <= 'Z');
    if !alpha {
        return false;
    }
    let col = upper_ascii_char(c);
    assert(col == upper_char(c));
    if col == 'I' {
        return false;
    }
    let code: u32 = col as u32;
    let skipped: u32 = if col > 'I' {
        1
    } else {
        0
    };
    let x: u32 = code - 65 - skipped;
    if x >= board_size as u32 {
        return false;
    }
    assert(v@.skip(1) =~= v@.drop_first());
    match parse_u8_chars(&v, 1) {
        Some(row) => 0 < row && row <= board_size,
        None => false,
    }
}

/// A candidate names a valid vertex, and so does every move of its
/// principal variation.
pub open spec fn move_info_vertices_valid(info: MoveInfo, board_size: u8) -> bool {
    &&& info.move_ matches Some(m) && valid_search_vertex(m@, board_size)
    &&& forall|k: int| 0 <= k < info.pv.len() ==> valid_search_vertex(#[trigger] info.pv@[k]@, board_size)
}

/// What a trusted search result needs apart from its figures: a root with
/// visits, results, valid vertices throughout, and an ownership array of
/// one value per point and a policy array of one more, where present.
pub open spec fn search_geometry_valid(r: AnalysisResponse, board_size: u8) -> bool {
    let area = (board_size as int) * (board_size as int);
    &&& r.root_info matches Some(root) && root.visits > 0
    &&& !r.no_results
    &&& forall|k: int|
        0 <= k < r.move_infos.len() ==> move_info_vertices_valid(#[trigger] r.move_infos@[k], board_size)
    &&& r.ownership_bits matches Some(o) ==> o.len() == area
    &&& r.policy_bits matches Some(p) ==> p.len() == area + 1
}

fn move_info_valid(info: &MoveInfo, board_size: u8) -> (r: bool)
    ensures
        r == move_info_vertices_valid(*info, board_size),
{
    let ok = match &info.move_ {
        Some(m) => is_valid_search_vertex(m.as_str(), board_size),
        None => false,
    };
    if !ok {
        return false;
    }
    let mut k: usize = 0;
    while k < info.pv.len()
        invariant
            k <= info.pv.len(),
            forall|j: int| 0 <= j < k ==> valid_search_vertex(#[trigger] info.pv@[j]@, board_size),
        decreases info.pv.len() - k,
    {
        if !is_valid_search_vertex(info.pv[k].as_str(), board_size) {
            return false;
        }
        k += 1;
    }
    true
}

/// Whether a response's search result has what it needs apart from its
/// floating-point figures.
pub fn has_valid_search_geometry(response: &AnalysisResponse, board_size: u8) -> (r: bool)
    ensures
        r == search_geometry_valid(*response, board_size),
{
    let visits_ok = match &response.root_info {
        Some(root) => root.visits > 0,
        None => false,
    };
    if !visits_ok || response.no_results {
        return false;
    }
    let mut k: usize = 0;
    while k < response.move_infos.len()
        invariant
            k <= response.move_infos.len(),
            forall|j: int|
                0 <= j < k ==> move_info_vertices_valid(#[trigger] response.move_infos@[j], board_size),
        decreases response.move_infos.len() - k,
    {
        if !move_info_valid(&response.move_infos[k], board_size) {
            return false;
        }
        k += 1;
    }
    let b: usize = board_size as usize;
    assert(b * b <= 255 * 255) by (nonlinear_arith)
        requires
            b <= 255,
    ;
    let area: usize = b * b;
    let ownership_ok = match &response.ownership_bits {
        Some(o) => o.len() == area,
        None => true,
    };
    let policy_ok = match &response.policy_bits {
        Some(p) => p.len() == area + 1,
        None => true,
    };
    ownership_ok && policy_ok
}

/// Strictly increasing.
pub open spec fn strictly_sorted(s: Seq<u32>) -> bool {
    forall|i: int, j: int| 0 <= i < j < s.len() ==> s[i] < s[j]
}

/// The turns a batch query analyses: each requested turn (every turn from 0
/// to `move_count` when none is requested) capped at `move_count`.
pub open spec fn requested_turns(turns: Option<Seq<u32>>, move_count: u32) -> Set<u32> {
    match turns {
        Some(t) => Set::new(|x: u32| exists|i: int| 0 <= i < t.len() && x == min_u32(#[trigger] t[i], move_count)),
        None => Set::new(|x: u32| x <= move_count),
    }
}

pub open spec fn min_u32(a: u32, b: u32) -> u32 {
    if a < b {
        a
    } else {
        b
    }
}

pub open spec fn turns_view(turns: Option<Vec<u32>>) -> Option<Seq<u32>> {
    match turns {
        Some(t) => Some(t@),
        None => None,
    }
}

/// Inserts `x` into a strictly increasing vector unless it is already there.
fn insert_sorted(v: &mut Vec<u32>, x: u32)
    requires
        strictly_sorted(old(v)@),
    ensures
        strictly_sorted(final(v)@),
        final(v)@.to_set() == old(v)@.to_set().insert(x),
{
    let mut i: usize = 0;
    while i < v.len() && v[i] < x
        invariant
            i <= v.len(),
            forall|j: int| 0 <= j < i ==> v@[j] < x,
        decreases v.len() - i,
    {
        i += 1;
    }
    if i < v.len() && v[i] == x {
        assert(v@.to_set().insert(x) =~= v@.to_set());
        return;
    }
    let ghost before = v@;
    v.insert(i, x);
    assert(v@ =~= before.take(i as int).push(x) + before.skip(i as int));
    assert forall|a: int, b: int| 0 <= a < b < v@.len() implies v@[a] < v@[b] by {
        if b < i {
        } else if b == i {
        } else if a < i {
            assert(before[b - 1] >= before[i as int] || b - 1 == i);
        } else if a == i {
        } else {
        }
    }
    assert(v@[i as int] == x);
    assert forall|y: u32| v@.to_set().contains(y) <==> before.to_set().insert(x).contains(y) by {
        if y == x {
            assert(v@.contains(x));
        }
        if v@.contains(y) {
            let k = choose|k: int| 0 <= k < v@.len() && v@[k] == y;
            if k < i {
                assert(before[k] == y);
            } else if k > i {
                assert(before[k - 1] == y);
            }
        }
        if before.contains(y) {
            let k = choose|k: int| 0 <= k < before.len() && before[k] == y;
            if k < i {
                assert(v@[k] == y);
            } else {
                assert(v@[k + 1] == y);
            }
        }
    }
    assert(v@.to_set() =~= before.to_set().insert(x));
}

/// The analysed turns in increasing order, each once.
pub fn normalize_analysis_turns(turns: Option<Vec<u32>>, move_count: u32) -> (r: Vec<u32>)
    ensures
        strictly_sorted(r@),
        r@.to_set() == requested_turns(turns_view(turns), move_count),
{
    let mut r: Vec<u32> = Vec::new();
    assert(r@.to_set() =~= Set::<u32>::empty());
    match turns {
        Some(t) => {
            let mut i: usize = 0;
            while i < t.len()
                invariant
                    i <= t.len(),
                    strictly_sorted(r@),
                    r@.to_set() == Set::new(
                        |x: u32| exists|k: int| 0 <= k < i && x == min_u32(#[trigger] t@[k], move_count),
                    ),
                decreases t.len() - i,
            {
                let capped = if t[i] < move_count {
                    t[i]
                } else {
                    move_count
                };
                let ghost prev = r@.to_set();
                insert_sorted(&mut r, capped);
                assert(r@.to_set() =~= Set::new(
                    |x: u32| exists|k: int| 0 <= k < i + 1 && x == min_u32(#[trigger] t@[k], move_count),
                )) by {
                    assert forall|x: u32|
                        r@.to_set().contains(x) implies (exists|k: int|
                            0 <= k < i + 1 && x == min_u32(#[trigger] t@[k], move_count)) by {
                        if x == capped {
                            assert(x == min_u32(t@[i as int], move_count));
                        }
                    }
                }
                i += 1;
            }
            assert(r@.to_set() =~= requested_turns(turns_view(Some(t)), move_count));
        },
        None => {
            let mut x: u32 = 0;
            while x < move_count
                invariant
                    x <= move_count,
                    r@.len() == x,
                    forall|k: int| 0 <= k < x ==> r@[k] == k,
                decreases move_count - x,
            {
                r.push(x);
                x += 1;
            }
            r.push(move_count);
            assert forall|y: u32| r@.to_set().contains(y) <==> y <= move_count by {
                if y <= move_count {
                    assert(r@[y as int] == y);
                }
            }
            assert(r@.to_set() =~= requested_turns(None, move_count));
        },
    }
    r
}

/// Response `a` comes before response `b`: an earlier turn, or the same
/// turn and an earlier arrival.
pub open spec fn comes_before(turns: Seq<u32>, a: int, b: int) -> bool {
    turns[a] < turns[b] || (turns[a] == turns[b] && a < b)
}

/// `order` lists, by turn and then by arrival, the indices of the responses
/// whose turn was requested, each once.
pub open spec fn is_response_order(turns: Seq<u32>, requested: Seq<u32>, order: Seq<usize>) -> bool {
    &&& forall|k: int|
        0 <= k < order.len() ==> (#[trigger] order[k]) < turns.len() && requested.contains(
            turns[order[k] as int],
        )
    &&& forall|i: int|
        0 <= i < turns.len() && requested.contains(#[trigger] turns[i]) ==> order.contains(
            i as usize,
        )
    &&& forall|a: int, b: int|
        0 <= a < b < order.len() ==> comes_before(
            turns,
            #[trigger] order[a] as int,
            #[trigger] order[b] as int,
        )
}

fn contains_turn(v: &Vec<u32>, x: u32) -> (r: bool)
    ensures
        r == v@.contains(x),
{
    let mut i: usize = 0;
    while i < v.len()
        invariant
            i <= v.len(),
            forall|j: int| 0 <= j < i ==> v@[j] != x,
        decreases v.len() - i,
    {
        if v[i] == x {
            assert(v@[i as int] == x);
            return true;
        }
        i += 1;
    }
    false
}

/// The order in which responses become frames: the indices of the responses
/// whose turn was requested, by turn, responses of one turn in arrival order;
/// repeated responses for a turn are all kept.
pub fn response_order(response_turns: &Vec<u32>, requested: &Vec<u32>) -> (r: Vec<usize>)
    ensures
        is_response_order(response_turns@, requested@, r@),
{
    let ghost turns = response_turns@;
    let mut order: Vec<usize> = Vec::new();
    let mut i: usize = 0;
    while i < response_turns.len()
        invariant
            i <= response_turns.len(),
            turns == response_turns@,
            forall|k: int|
                0 <= k < order.len() ==> (#[trigger] order@[k]) < i && requested@.contains(
                    turns[order@[k] as int],
                ),
            forall|j: int|
                0 <= j < i && requested@.contains(#[trigger] turns[j]) ==> order@.contains(
                    j as usize,
                ),
            forall|a: int, b: int|
                0 <= a < b < order.len() ==> comes_before(
                    turns,
                    #[trigger] order@[a] as int,
                    #[trigger] order@[b] as int,
                ),
        decreases response_turns.len() - i,
    {
        let t = response_turns[i];
        if contains_turn(requested, t) {
            let mut p: usize = 0;
            while p < order.len() && response_turns[order[p]] <= t
                invariant
                    p <= order.len(),
                    i < response_turns.len(),
                    turns == response_turns@,
                    forall|k: int| 0 <= k < order.len() ==> (#[trigger] order@[k]) < i,
                    forall|k: int| 0 <= k < p ==> turns[(#[trigger] order@[k]) as int] <= t,
                decreases order.len() - p,
            {
                p += 1;
            }
            let ghost before = order@;
            order.insert(p, i);
            assert(order@ =~= before.take(p as int).push(i) + before.skip(p as int));
            assert forall|k: int| p <= k < before.len() implies turns[(#[trigger] before[k]) as int]
                > t by {
                if turns[before[k] as int] <= t {
                    assert(turns[before[p as int] as int] > t);
                    assert(comes_before(turns, before[p as int] as int, before[k] as int));
                }
            }
            assert forall|a: int, b: int| 0 <= a < b < order@.len() implies comes_before(
                turns,
                #[trigger] order@[a] as int,
                #[trigger] order@[b] as int,
            ) by {
                if b < p {
                    assert(order@[a] == before[a] && order@[b] == before[b]);
                } else if b == p {
                    assert(order@[a] == before[a]);
                } else if a < p {
                    assert(order@[a] == before[a] && order@[b] == before[b - 1]);
                } else if a == p {
                    assert(order@[b] == before[b - 1]);
                } else {
                    assert(order@[a] == before[a - 1] && order@[b] == before[b - 1]);
                }
            }
            assert forall|j: int|
                0 <= j < i + 1 && requested@.contains(#[trigger] turns[j]) implies order@.contains(
                j as usize,
            ) by {
                if j == i {
                    assert(order@[p as int] == i);
                } else {
                    assert(before.contains(j as usize));
                    let k = choose|k: int| 0 <= k < before.len() && before[k] == j as usize;
                    if k < p {
                        assert(order@[k] == j as usize);
                    } else {
                        assert(order@[k + 1] == j as usize);
                    }
                }
            }
            assert forall|k: int| 0 <= k < order.len() implies (#[trigger] order@[k]) < i + 1
                && requested@.contains(turns[order@[k] as int]) by {
                if k < p {
                    assert(order@[k] == before[k]);
                } else if k > p {
                    assert(order@[k] == before[k - 1]);
                }
            }
        }
        i += 1;
    }
    order
}

/// How long a continuous search may run: a number of seconds, or KataGo's
/// unbounded sentinel.
#[derive(Debug, Clone, Copy, PartialEq, Eq, Structural)]
pub enum SearchTime {
    Seconds(u32),
    Unbounded,
}

/// KataGo's sentinel for an unbounded visit or playout count.
pub const UNBOUNDED_SEARCH: u64 = 1u64 << 50;

/// The bit pattern of the `f64` 0.1, the reporting interval, in seconds, of
/// queries that report during search.
pub const REPORT_EVERY_TENTH_BITS: u64 = 0x3FB9_9999_9999_999A;

/// Search limits that override the engine's configured ones.
#[derive(Debug, Clone, Copy, PartialEq, Eq, Structural)]
pub struct ContinuousSearchSettings {
    pub max_time: SearchTime,
    pub max_visits: u64,
    pub max_playouts: u64,
}

/// A KataGo analysis query. The komi and the reporting interval are held by
/// the bit patterns of their `f32` and `f64`.
#[derive(Debug, Clone)]
pub struct AnalysisQuery {
    pub id: String,
    pub moves: Vec<KataMove>,
    pub initial_stones: Vec<KataMove>,
    pub rules: String,
    pub komi_bits: u32,
    pub board_x_size: u8,
    pub board_y_size: u8,
    pub analyze_turns: Option<Vec<u32>>,
    pub max_visits: Option<u32>,
    pub include_ownership: Option<bool>,
    pub include_policy: Option<bool>,
    pub report_during_search_every_bits: Option<u64>,
    pub override_settings: Option<ContinuousSearchSettings>,
}

impl AnalysisQuery {
    /// Turns the query into a continuous one: no visit cap of its own, a
    /// report every tenth of a second, and the budget's limits (unbounded
    /// where the budget leaves one off).
    pub fn continuous(&mut self, budget: ContinuousAnalysisBudgetDto)
        ensures
            final(self).max_visits is None,
            final(self).report_during_search_every_bits == Some(REPORT_EVERY_TENTH_BITS),
            final(self).override_settings == Some(
                ContinuousSearchSettings {
                    max_time: if budget.continuous_time_limit_enabled {
                        SearchTime::Seconds(budget.continuous_time_limit_seconds)
                    } else {
                        SearchTime::Unbounded
                    },
                    max_visits: if budget.continuous_visits_limit_enabled {
                        budget.continuous_visits_limit as u64
                    } else {
                        UNBOUNDED_SEARCH
                    },
                    max_playouts: UNBOUNDED_SEARCH,
                },
            ),
            *final(self) == (AnalysisQuery {
                max_visits: None,
                report_during_search_every_bits: final(self).report_during_search_every_bits,
                override_settings: final(self).override_settings,
                ..*old(self)
            }),
    {
        self.max_visits = None;
        self.report_during_search_every_bits = Some(REPORT_EVERY_TENTH_BITS);
        self.override_settings = Some(
            ContinuousSearchSettings {
                max_time: if budget.continuous_time_limit_enabled {
                    SearchTime::Seconds(budget.continuous_time_limit_seconds)
                } else {
                    SearchTime::Unbounded
                },
                max_visits: if budget.continuous_visits_limit_enabled {
                    budget.continuous_visits_limit as u64
                } else {
                    UNBOUNDED_SEARCH
                },
                max_playouts: UNBOUNDED_SEARCH,
            },
        );
    }
}

/// The query of a whole-game work item as it is sent: under the query id of
/// its submission, reporting every tenth of a second during search.
pub fn bind_work_item_query(query: AnalysisQuery, query_id: &str) -> (r: AnalysisQuery)
    ensures
        r.id@ == query_id@,
        r == (AnalysisQuery {
            id: r.id,
            report_during_search_every_bits: Some(REPORT_EVERY_TENTH_BITS),
            ..query
        }),
{
    let mut query = query;
    query.id = String::from_str(query_id);
    query.report_during_search_every_bits = Some(REPORT_EVERY_TENTH_BITS);
    query
}

/// `k` is the KataGo move of `m` on a board of `board_size`.
pub open spec fn kata_move_of(m: MoveDto, board_size: u8, k: KataMove) -> bool {
    &&& k.0@ == color_letter(m.color)
    &&& Ok::<Seq<char>, ()>(k.1@) == kata_vertex(m.vertex, board_size)
}

/// No column of the first `n` moves overflows a byte.
pub open spec fn no_overflow(moves: Seq<MoveDto>, board_size: u8, n: int) -> bool {
    forall|i: int| 0 <= i < n ==> !vertex_overflows(#[trigger] moves[i].vertex, board_size)
}

/// The first `n` moves are on the board.
pub open spec fn all_on_board(moves: Seq<MoveDto>, board_size: u8, n: int) -> bool {
    forall|i: int| 0 <= i < n ==> (#[trigger] kata_vertex(moves[i].vertex, board_size)) is Ok
}

/// `e` is the error of the off-board move `m`.
pub open spec fn off_board_error(m: MoveDto, board_size: u8, e: ProtocolError) -> bool {
    match m.vertex {
        MoveVertex::Point(p) => (p.x >= board_size || p.y >= board_size) && e
            == (ProtocolError::InvalidVertex { x: p.x, y: p.y, board_size }),
        MoveVertex::Pass => false,
    }
}

/// `e` reports the first of the first `n` moves that is off the board.
pub open spec fn first_off_board(moves: Seq<MoveDto>, board_size: u8, n: int, e: ProtocolError) -> bool {
    exists|i: int|
        0 <= i < n && all_on_board(moves, board_size, i) && off_board_error(
            #[trigger] moves[i],
            board_size,
            e,
        )
}

/// The KataGo moves of the first `n` moves, or the error of the first one
/// off the board.
fn kata_moves(moves: &Vec<MoveDto>, n: usize, board_size: u8) -> (r: Result<
    Vec<KataMove>,
    ProtocolError,
>)
    requires
        n <= moves.len(),
        no_overflow(moves@, board_size, n as int),
    ensures
        r is Ok <==> all_on_board(moves@, board_size, n as int),
        r matches Ok(v) ==> v.len() == n && forall|i: int|
            0 <= i < n ==> kata_move_of(moves@[i], board_size, #[trigger] v@[i]),
        r matches Err(e) ==> first_off_board(moves@, board_size, n as int, e),
{
    let mut out: Vec<KataMove> = Vec::new();
    let mut i: usize = 0;
    while i < n
        invariant
            i <= n,
            n <= moves.len(),
            no_overflow(moves@, board_size, n as int),
            all_on_board(moves@, board_size, i as int),
            out.len() == i,
            forall|j: int| 0 <= j < i ==> kata_move_of(moves@[j], board_size, #[trigger] out@[j]),
        decreases n - i,
    {
        assert(!vertex_overflows(moves@[i as int].vertex, board_size));
        match move_dto_to_kata_move(&moves[i], board_size) {
            Ok(m) => {
                out.push(m);
                assert forall|j: int| 0 <= j < i + 1 implies (#[trigger] kata_vertex(
                    moves@[j].vertex,
                    board_size,
                )) is Ok by {
                    if j < i {
                        assert(all_on_board(moves@, board_size, i as int));
                    }
                }
            },
            Err(e) => {
                assert(off_board_error(moves@[i as int], board_size, e));
                assert(!all_on_board(moves@, board_size, n as int)) by {
                    assert(kata_vertex(moves@[i as int].vertex, board_size) is Err);
                }
                return Err(e);
            },
        }
        i += 1;
    }
    Ok(out)
}

/// The query fields that every builder sets the same way from its options.
pub open spec fn query_from_options(
    q: AnalysisQuery,
    id: String,
    rules: String,
    board_size: u8,
    komi_bits: u32,
    max_visits: Option<u32>,
    include_ownership: Option<bool>,
    include_policy: Option<bool>,
) -> bool {
    &&& q.id == id
    &&& q.rules == rules
    &&& q.komi_bits == komi_bits
    &&& q.board_x_size == board_size
    &&& q.board_y_size == board_size
    &&& q.max_visits == max_visits
    &&& q.include_ownership == include_ownership
    &&& q.include_policy == include_policy
    &&& q.report_during_search_every_bits is None
    &&& q.override_settings is None
}

/// The turn a single-turn query analyses: the requested one, at most the
/// game's last.
pub open spec fn query_turn(turn: u32, move_count: usize) -> u32 {
    if turn < (move_count as u32) {
        turn
    } else {
        move_count as u32
    }
}

/// A query for one turn of a game: the moves up to that turn, analysed at
/// that turn.
pub fn analysis_query_from_game(game: &GameDto, options: AnalysisQueryOptions) -> (r: Result<
    AnalysisQuery,
    ProtocolError,
>)
    requires
        no_overflow(
            game.moves@,
            game.summary.board_size,
            query_turn(options.turn, game.moves.len()) as int,
        ),
    ensures
        ({
            let n = query_turn(options.turn, game.moves.len()) as int;
            let bs = game.summary.board_size;
            &&& (r is Ok <==> all_on_board(game.moves@, bs, n))
            &&& (r matches Err(e) ==> first_off_board(game.moves@, bs, n, e))
            &&& (r matches Ok(q) ==> {
                &&& query_from_options(
                    q,
                    options.id,
                    options.rules,
                    bs,
                    game.summary.komi_bits,
                    options.max_visits,
                    options.include_ownership,
                    options.include_policy,
                )
                &&& q.moves.len() == n
                &&& forall|i: int| 0 <= i < n ==> kata_move_of(game.moves@[i], bs, #[trigger] q.moves@[i])
                &&& q.initial_stones.len() == 0
                &&& q.analyze_turns matches Some(t) && t@ == seq![n as u32]
            })
        }),
{
    let board_size = game.summary.board_size;
    let count: u32 = game.moves.len() as u32;
    let turn: u32 = if options.turn < count {
        options.turn
    } else {
        count
    };
    assert(turn as int <= game.moves.len()) by {
        assert(turn <= count);
    }
    let moves = kata_moves(&game.moves, turn as usize, board_size)?;
    let mut turns: Vec<u32> = Vec::new();
    turns.push(turn);
    Ok(
        AnalysisQuery {
            id: options.id,
            moves,
            initial_stones: Vec::new(),
            rules: options.rules,
            komi_bits: game.summary.komi_bits,
            board_x_size: board_size,
            board_y_size: board_size,
            analyze_turns: Some(turns),
            max_visits: options.max_visits,
            include_ownership: options.include_ownership,
            include_policy: options.include_policy,
            report_during_search_every_bits: None,
            override_settings: None,
        },
    )
}

/// A query for many turns of a game: the whole main line, analysed at the
/// requested turns (every turn when none are given), clamped, sorted and
/// without repeats.
pub fn analysis_batch_query_from_game(
    game: &GameDto,
    options: AnalysisBatchQueryOptions,
) -> (r: Result<AnalysisQuery, ProtocolError>)
    requires
        no_overflow(game.moves@, game.summary.board_size, game.moves.len() as int),
    ensures
        ({
            let n = game.moves.len() as int;
            let bs = game.summary.board_size;
            &&& (r is Ok <==> all_on_board(game.moves@, bs, n))
            &&& (r matches Err(e) ==> first_off_board(game.moves@, bs, n, e))
            &&& (r matches Ok(q) ==> {
                &&& query_from_options(
                    q,
                    options.id,
                    options.rules,
                    bs,
                    game.summary.komi_bits,
                    options.max_visits,
                    options.include_ownership,
                    options.include_policy,
                )
                &&& q.moves.len() == n
                &&& forall|i: int| 0 <= i < n ==> kata_move_of(game.moves@[i], bs, #[trigger] q.moves@[i])
                &&& q.initial_stones.len() == 0
                &&& q.analyze_turns matches Some(t) && strictly_sorted(t@) && t@.to_set()
                    == requested_turns(turns_view(options.analyze_turns), game.moves.len() as u32)
            })
        }),
{
    let board_size = game.summary.board_size;
    let move_count: u32 = game.moves.len() as u32;
    let moves = kata_moves(&game.moves, game.moves.len(), board_size)?;
    let turns = normalize_analysis_turns(options.analyze_turns, move_count);
    Ok(
        AnalysisQuery {
            id: options.id,
            moves,
            initial_stones: Vec::new(),
            rules: options.rules,
            komi_bits: game.summary.komi_bits,
            board_x_size: board_size,
            board_y_size: board_size,
            analyze_turns: Some(turns),
            max_visits: options.max_visits,
            include_ownership: options.include_ownership,
            include_policy: options.include_policy,
            report_during_search_every_bits: None,
            override_settings: None,
        },
    )
}

/// `k` is the KataGo stone of `s`.
pub open spec fn kata_stone_of(s: StoneDto, board_size: u8, k: KataMove) -> bool {
    &&& k.0@ == color_letter(s.color)
    &&& k.1@ == kata_coordinate(PointDto { x: s.x, y: s.y }, board_size)
}

pub open spec fn stone_on_board(s: StoneDto, board_size: u8) -> bool {
    s.x < board_size && s.y < board_size
}

/// A query for a set-up position: its stones as initial stones, and a black
/// pass first when White is to play, analysed after that pass.
pub fn analysis_query_from_position(
    board_size: u8,
    komi_bits: u32,
    stones: &Vec<StoneDto>,
    to_play: PlayerColor,
    options: AnalysisQueryOptions,
) -> (r: Result<AnalysisQuery, ProtocolError>)
    requires
        forall|i: int|
            0 <= i < stones.len() ==> !column_overflows(
                PointDto { x: (#[trigger] stones@[i]).x, y: stones@[i].y },
                board_size,
            ),
    ensures
        (r is Ok <==> forall|i: int|
            0 <= i < stones.len() ==> stone_on_board(#[trigger] stones@[i], board_size)),
        r matches Err(e) ==> exists|i: int|
            0 <= i < stones.len() && !stone_on_board(#[trigger] stones@[i], board_size) && (forall|
                j: int,
            | 0 <= j < i ==> stone_on_board(#[trigger] stones@[j], board_size)) && e == (
            ProtocolError::InvalidVertex { x: stones@[i].x, y: stones@[i].y, board_size }),
        r matches Ok(q) ==> {
            &&& query_from_options(
                q,
                options.id,
                options.rules,
                board_size,
                komi_bits,
                options.max_visits,
                options.include_ownership,
                options.include_policy,
            )
            &&& q.initial_stones.len() == stones.len()
            &&& forall|i: int|
                0 <= i < stones.len() ==> kata_stone_of(
                    stones@[i],
                    board_size,
                    #[trigger] q.initial_stones@[i],
                )
            &&& if to_play == PlayerColor::White {
                &&& q.moves.len() == 1
                &&& q.moves@[0].0@ == seq!['B'] && q.moves@[0].1@ == pass_word()
                &&& q.analyze_turns matches Some(t) && t@ == seq![1u32]
            } else {
                &&& q.moves.len() == 0
                &&& q.analyze_turns matches Some(t) && t@ == seq![0u32]
            }
        },
{
    let mut initial_stones: Vec<KataMove> = Vec::new();
    let mut i: usize = 0;
    while i < stones.len()
        invariant
            i <= stones.len(),
            forall|k: int|
                0 <= k < stones.len() ==> !column_overflows(
                    PointDto { x: (#[trigger] stones@[k]).x, y: stones@[k].y },
                    board_size,
                ),
            forall|j: int| 0 <= j < i ==> stone_on_board(#[trigger] stones@[j], board_size),
            initial_stones.len() == i,
            forall|j: int|
                0 <= j < i ==> kata_stone_of(stones@[j], board_size, #[trigger] initial_stones@[j]),
        decreases stones.len() - i,
    {
        let stone = stones[i];
        let point = PointDto { x: stone.x, y: stone.y };
        assert(!column_overflows(point, board_size)) by {
            assert(!column_overflows(PointDto { x: stones@[i as int].x, y: stones@[i as int].y }, board_size));
        }
        let vertex = point_to_kata_coordinate(&point, board_size)?;
        initial_stones.push((String::from_str(player_color_to_kata(stone.color)), vertex));
        i += 1;
    }
    let mut moves: Vec<KataMove> = Vec::new();
    if to_play == PlayerColor::White {
        let pass = String::from_str("pass");
        proof {
            reveal_strlit("pass");
            reveal_strlit("B");
        }
        assert(pass@ =~= pass_word());
        moves.push((String::from_str("B"), pass));
    }
    let turn: u32 = moves.len() as u32;
    let mut turns: Vec<u32> = Vec::new();
    turns.push(turn);
    assert(turns@ =~= seq![turn]);
    Ok(
        AnalysisQuery {
            id: options.id,
            moves,
            initial_stones,
            rules: options.rules,
            komi_bits,
            board_x_size: board_size,
            board_y_size: board_size,
            analyze_turns: Some(turns),
            max_visits: options.max_visits,
            include_ownership: options.include_ownership,
            include_policy: options.include_policy,
            report_during_search_every_bits: None,
            override_settings: None,
        },
    )
}

/// The bit pattern of the `f32` 0.5, the winrate of a response without a
/// root summary.
pub const EVEN_WINRATE_BITS: u32 = 0x3F00_0000;

/// The root summary of a KataGo response. Floating-point values are held as
/// their IEEE-754 `f32` bit patterns.
#[derive(Debug, Clone, Copy, PartialEq, Eq, Structural)]
pub struct RootInfo {
    pub visits: u32,
    pub winrate_bits: u32,
    pub score_mean_bits: u32,
    pub score_lead_bits: Option<u32>,
    pub score_stdev_bits: Option<u32>,
}

/// One candidate move of a KataGo response, floats as `f32` bit patterns.
#[derive(Debug, Clone, PartialEq, Eq)]
pub struct MoveInfo {
    pub move_: Option<String>,
    pub visits: u32,
    pub winrate_bits: u32,
    pub score_mean_bits: u32,
    pub prior_bits: Option<u32>,
    pub pv: Vec<String>,
}

/// A KataGo analysis response, floats as `f32` bit patterns.
#[derive(Debug, Clone, PartialEq, Eq)]
pub struct AnalysisResponse {
    pub id: String,
    pub turn_number: u32,
    pub root_info: Option<RootInfo>,
    pub move_infos: Vec<MoveInfo>,
    pub ownership_bits: Option<Vec<u32>>,
    pub policy_bits: Option<Vec<u32>>,
    pub error: Option<String>,
    pub warning: Option<String>,
    pub is_during_search: Option<bool>,
    pub no_results: bool,
    pub action: Option<String>,
    pub field: Option<String>,
}

/// A response that KataGo sent as an error is refused with that error; any
/// other response is accepted as it is.
pub fn reject_engine_error(response: AnalysisResponse) -> (r: Result<
    AnalysisResponse,
    ProtocolError,
>)
    ensures
        match response.error {
            Some(e) => r matches Err(ProtocolError::Engine(m)) && m@ == e@,
            None => r == Ok::<AnalysisResponse, ProtocolError>(response),
        },
{
    match &response.error {
        Some(e) => Err(ProtocolError::Engine(e.clone())),
        None => Ok(response),
    }
}

/// The root summary that stands in for a missing one: no visits, an even
/// game, no score.
pub open spec fn missing_root() -> RootInfo {
    RootInfo {
        visits: 0,
        winrate_bits: EVEN_WINRATE_BITS,
        score_mean_bits: 0,
        score_lead_bits: None,
        score_stdev_bits: None,
    }
}

pub open spec fn vertices_view(moves: Seq<String>, board_size: u8) -> Seq<MoveVertex> {
    moves.map_values(|m: String| gtp_vertex(m@, board_size))
}

/// The candidate a response's move info becomes: its vertex read on the
/// board (a pass where it names none), and its principal variation.
pub open spec fn candidate_view(info: MoveInfo, board_size: u8) -> CandidateMoveView {
    CandidateMoveView {
        vertex: match info.move_ {
            Some(m) => gtp_vertex(m@, board_size),
            None => MoveVertex::Pass,
        },
        visits: info.visits,
        winrate_black_bits: info.winrate_bits,
        score_mean_black_bits: info.score_mean_bits,
        policy_prior_bits: info.prior_bits,
        pv: vertices_view(info.pv@, board_size),
    }
}

/// The frame a response becomes: the root's figures (the score lead where
/// KataGo gives one, the score mean otherwise), every candidate in order,
/// and the ownership and policy as they came.
pub open spec fn frame_view(job_id: uuid::Uuid, response: AnalysisResponse, board_size: u8) -> AnalysisFrameView {
    let root = match response.root_info {
        Some(r) => r,
        None => missing_root(),
    };
    AnalysisFrameView {
        job_id,
        game_id: None,
        node_id: None,
        turn: response.turn_number,
        visits: root.visits,
        winrate_black_bits: root.winrate_bits,
        score_mean_black_bits: match root.score_lead_bits {
            Some(b) => b,
            None => root.score_mean_bits,
        },
        score_stdev_bits: root.score_stdev_bits,
        candidates: response.move_infos@.map_values(|i: MoveInfo| candidate_view(i, board_size)),
        ownership_bits: bits_view(response.ownership_bits),
        policy_bits: bits_view(response.policy_bits),
    }
}

fn vertices_of(moves: &Vec<String>, board_size: u8) -> (r: Vec<MoveVertex>)
    ensures
        r@ == vertices_view(moves@, board_size),
{
    let mut r: Vec<MoveVertex> = Vec::new();
    let mut i: usize = 0;
    while i < moves.len()
        invariant
            i <= moves.len(),
            r.len() == i,
            forall|j: int| 0 <= j < i ==> #[trigger] r@[j] == gtp_vertex(moves@[j]@, board_size),
        decreases moves.len() - i,
    {
        r.push(gtp_vertex_to_dto(moves[i].as_str(), board_size));
        i += 1;
    }
    assert(r@ =~= vertices_view(moves@, board_size));
    r
}

fn candidate_from(info: &MoveInfo, board_size: u8) -> (r: CandidateMoveDto)
    ensures
        r@ == candidate_view(*info, board_size),
{
    let vertex = match &info.move_ {
        Some(m) => gtp_vertex_to_dto(m.as_str(), board_size),
        None => MoveVertex::Pass,
    };
    CandidateMoveDto {
        vertex,
        visits: info.visits,
        winrate_black_bits: info.winrate_bits,
        score_mean_black_bits: info.score_mean_bits,
        policy_prior_bits: info.prior_bits,
        pv: vertices_of(&info.pv, board_size),
    }
}

fn frame_from(job_id: uuid::Uuid, response: &AnalysisResponse, board_size: u8) -> (r:
    AnalysisFrameDto)
    ensures
        r@ == frame_view(job_id, *response, board_size),
{
    let root = match response.root_info {
        Some(r) => r,
        None => RootInfo {
            visits: 0,
            winrate_bits: EVEN_WINRATE_BITS,
            score_mean_bits: 0,
            score_lead_bits: None,
            score_stdev_bits: None,
        },
    };
    let mut candidates: Vec<CandidateMoveDto> = Vec::new();
    let mut i: usize = 0;
    while i < response.move_infos.len()
        invariant
            i <= response.move_infos.len(),
            candidates.len() == i,
            forall|j: int|
                0 <= j < i ==> (#[trigger] candidates@[j])@ == candidate_view(
                    response.move_infos@[j],
                    board_size,
                ),
        decreases response.move_infos.len() - i,
    {
        candidates.push(candidate_from(&response.move_infos[i], board_size));
        i += 1;
    }
    let r = AnalysisFrameDto {
        job_id,
        game_id: None,
        node_id: None,
        turn: response.turn_number,
        visits: root.visits,
        winrate_black_bits: root.winrate_bits,
        score_mean_black_bits: match root.score_lead_bits {
            Some(b) => b,
            None => root.score_mean_bits,
        },
        score_stdev_bits: root.score_stdev_bits,
        candidates,
        ownership_bits: clone_bits(&response.ownership_bits),
        policy_bits: clone_bits(&response.policy_bits),
    };
    assert(r@.candidates =~= frame_view(job_id, *response, board_size).candidates);
    r
}

/// The analysis frame of one KataGo response.
pub fn normalize_response(job_id: uuid::Uuid, response: AnalysisResponse, board_size: u8) -> (r:
    AnalysisFrameDto)
    ensures
        r@ == frame_view(job_id, response, board_size),
{
    frame_from(job_id, &response, board_size)
}

pub open spec fn turns_of(responses: Seq<AnalysisResponse>) -> Seq<u32> {
    responses.map_values(|r: AnalysisResponse| r.turn_number)
}

/// The frames of the responses whose turn was asked for, ordered by turn;
/// responses of one turn keep the order in which they came.
pub fn normalize_responses_for_turns(
    job_id: uuid::Uuid,
    responses: Vec<AnalysisResponse>,
    board_size: u8,
    turns: &[u32],
) -> (r: Vec<AnalysisFrameDto>)
    ensures
        exists|order: Seq<usize>|
            {
                &&& is_response_order(turns_of(responses@), turns@, order)
                &&& r.len() == order.len()
                &&& forall|k: int|
                    0 <= k < order.len() ==> (#[trigger] r@[k])@ == frame_view(
                        job_id,
                        responses@[order[k] as int],
                        board_size,
                    )
            },
{
    let requested = vstd::slice::slice_to_vec(turns);
    let mut response_turns: Vec<u32> = Vec::new();
    let mut i: usize = 0;
    while i < responses.len()
        invariant
            i <= responses.len(),
            response_turns.len() == i,
            forall|j: int| 0 <= j < i ==> #[trigger] response_turns@[j] == responses@[j].turn_number,
        decreases responses.len() - i,
    {
        response_turns.push(responses[i].turn_number);
        i += 1;
    }
    assert(response_turns@ =~= turns_of(responses@));
    let order = response_order(&response_turns, &requested);
    let mut frames: Vec<AnalysisFrameDto> = Vec::new();
    let mut k: usize = 0;
    while k < order.len()
        invariant
            k <= order.len(),
            frames.len() == k,
            is_response_order(turns_of(responses@), turns@, order@),
            turns_of(responses@).len() == responses.len(),
            forall|j: int|
                0 <= j < k ==> (#[trigger] frames@[j])@ == frame_view(
                    job_id,
                    responses@[order@[j] as int],
                    board_size,
                ),
        decreases order.len() - k,
    {
        assert(order@[k as int] < turns_of(responses@).len());
        frames.push(frame_from(job_id, &responses[order[k]], board_size));
        k += 1;
    }
    frames
}

/// The lower-case hexadecimal digit of `n` (below 16).
pub open spec fn hex_digit(n: int) -> char {
    if n < 10 {
        (48 + n) as char
    } else {
        (87 + n) as char
    }
}

/// How `serde_json` writes one character inside a JSON string: a quote and
/// a backslash escaped with a backslash; backspace, tab, line feed, form
/// feed and carriage return as `\b \t \n \f \r`; any other control
/// character below U+0020 as `\u00` and two lower-case hex digits; every
/// other character as it is.
pub open spec fn json_escaped_char(c: char) -> Seq<char> {
    let n = c as int;
    if c == '"' {
        seq!['\\', '"']
    } else if c == '\\' {
        seq!['\\', '\\']
    } else if n == 8 {
        seq!['\\', 'b']
    } else if n == 9 {
        seq!['\\', 't']
    } else if n == 10 {
        seq!['\\', 'n']
    } else if n == 12 {
        seq!['\\', 'f']
    } else if n == 13 {
        seq!['\\', 'r']
    } else if n < 32 {
        seq!['\\', 'u', '0', '0', hex_digit(n / 16), hex_digit(n % 16)]
    } else {
        seq![c]
    }
}

/// The characters of `s`, each written as inside a JSON string.
pub open spec fn json_escaped(s: Seq<char>) -> Seq<char>
    decreases s.len(),
{
    if s.len() == 0 {
        Seq::empty()
    } else {
        json_escaped(s.drop_last()) + json_escaped_char(s.last())
    }
}

/// How `serde_json` writes a string as a JSON string literal: between
/// quotes, each character escaped as `json_escaped_char` says.
pub open spec fn json_quoted(s: Seq<char>) -> Seq<char> {
    seq!['"'] + json_escaped(s) + seq!['"']
}

/// `serde_json::to_string` of a string slice: its JSON string literal,
/// written as `json_quoted` states (the escape table and escape writer of
/// `serde_json`'s serializer). The serialisation of a `str` does not fail.
#[verifier::external_body]
fn json_string(s: &str) -> (r: String)
    ensures
        r@ == json_quoted(s@),
{
    match serde_json::to_string(s) {
        Ok(t) => t,
        Err(_) => String::new(),
    }
}

/// The JSON line that asks KataGo to stop the query `target_id`, with keys in
/// the order `serde_json` writes an object's keys.
pub open spec fn terminate_line(control_id: Seq<char>, target_id: Seq<char>) -> Seq<char> {
    "{\"action\":\"terminate\",\"id\":"@ + json_quoted(control_id) + ",\"terminateId\":"@
        + json_quoted(target_id) + "}\n"@
}

pub fn terminate_action_jsonl(control_id: &str, target_id: &str) -> (r: String)
    ensures
        r@ == terminate_line(control_id@, target_id@),
{
    let mut line = String::from_str("{\"action\":\"terminate\",\"id\":");
    let control = json_string(control_id);
    line.append(control.as_str());
    line.append(",\"terminateId\":");
    let target = json_string(target_id);
    line.append(target.as_str());
    line.append("}\n");
    line
}

} // verus!
