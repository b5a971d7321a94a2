//! The text form of a rectangle, as the selection and capture tools exchange it.

use vstd::prelude::*;

verus! {

pub const SPACE: u8 = 32;
pub const COMMA: u8 = 44;
/// The `x` between width and height.
pub const TIMES: u8 = 120;
pub const PLUS: u8 = 43;
pub const MINUS: u8 = 45;
pub const DIGIT_ZERO: u8 = 48;
pub const DIGIT_NINE: u8 = 57;
pub const NEWLINE: u8 = 10;

/// An axis-aligned rectangle in logical pixels.
#[derive(Clone, Copy, Debug, PartialEq, Eq, Structural)]
pub struct Geometry {
    pub x: i32,
    pub y: i32,
    pub width: u32,
    pub height: u32,
}

/// Why a rectangle could not be read from text.
#[derive(Clone, Copy, Debug, PartialEq, Eq, Structural)]
pub enum ParseGeometryError {
    /// The text does not hold exactly four fields.
    WrongArgumentsCount,
    /// The field at this index (x, y, width, height) is not a number of its type.
    ParseArgument(usize),
}

/// Bytes that end a field: ASCII white space, the comma of `x,y` and the `x` of `WxH`.
pub open spec fn is_separator(b: u8) -> bool {
    b == SPACE || (9 <= b && b <= 13) || b == COMMA || b == TIMES
}

pub open spec fn is_digit(b: u8) -> bool {
    DIGIT_ZERO <= b && b <= DIGIT_NINE
}

pub open spec fn all_digits(t: Seq<u8>) -> bool {
    forall|i: int| 0 <= i < t.len() ==> is_digit(#[trigger] t[i])
}

pub open spec fn no_separators(t: Seq<u8>) -> bool {
    forall|i: int| 0 <= i < t.len() ==> !is_separator(#[trigger] t[i])
}

/// Reading `s` from the left: the fields completed so far, and the run of
/// non-separator bytes still open at the end.
pub open spec fn split_fields(s: Seq<u8>) -> (Seq<Seq<u8>>, Seq<u8>)
    decreases s.len(),
{
    if s.len() == 0 {
        (seq![], seq![])
    } else {
        let prev = split_fields(s.drop_last());
        if !is_separator(s.last()) {
            (prev.0, prev.1.push(s.last()))
        } else if prev.1.len() > 0 {
            (prev.0.push(prev.1), seq![])
        } else {
            prev
        }
    }
}

/// The maximal runs of non-separator bytes of `s`, in order.
pub open spec fn fields(s: Seq<u8>) -> Seq<Seq<u8>> {
    let st = split_fields(s);
    if st.1.len() > 0 {
        st.0.push(st.1)
    } else {
        st.0
    }
}

/// The number written by a string of decimal digits.
pub open spec fn digits_value(t: Seq<u8>) -> nat
    decreases t.len(),
{
    if t.len() == 0 {
        0
    } else {
        digits_value(t.drop_last()) * 10 + (t.last() - DIGIT_ZERO) as nat
    }
}

pub open spec fn decimal_value(t: Seq<u8>) -> Option<int> {
    if t.len() > 0 && all_digits(t) {
        Some(digits_value(t) as int)
    } else {
        None
    }
}

/// A field read as an unsigned number: digits, with an optional leading `+`.
pub open spec fn unsigned_field(t: Seq<u8>) -> Option<int> {
    if t.len() > 0 && t[0] == PLUS {
        decimal_value(t.drop_first())
    } else {
        decimal_value(t)
    }
}

/// A field read as a signed number: an unsigned one, or `-` and digits.
pub open spec fn signed_field(t: Seq<u8>) -> Option<int> {
    if t.len() > 0 && t[0] == MINUS {
        match decimal_value(t.drop_first()) {
            Some(v) => Some(-v),
            None => None,
        }
    } else {
        unsigned_field(t)
    }
}

pub open spec fn field_i32(t: Seq<u8>) -> Option<i32> {
    match signed_field(t) {
        Some(v) => if i32::MIN <= v <= i32::MAX {
            Some(v as i32)
        } else {
            None
        },
        None => None,
    }
}

pub open spec fn field_u32(t: Seq<u8>) -> Option<u32> {
    match unsigned_field(t) {
        Some(v) => if v <= u32::MAX {
            Some(v as u32)
        } else {
            None
        },
        None => None,
    }
}

/// What reading a rectangle from `s` gives: four fields x, y, width, height,
/// each a number of its type; the first field that is not names the error.
pub open spec fn parse_spec(s: Seq<u8>) -> Result<Geometry, ParseGeometryError> {
    let f = fields(s);
    if f.len() != 4 {
        Err(ParseGeometryError::WrongArgumentsCount)
    } else {
        match (field_i32(f[0]), field_i32(f[1]), field_u32(f[2]), field_u32(f[3])) {
            (None, _, _, _) => Err(ParseGeometryError::ParseArgument(0)),
            (Some(_), None, _, _) => Err(ParseGeometryError::ParseArgument(1)),
            (Some(_), Some(_), None, _) => Err(ParseGeometryError::ParseArgument(2)),
            (Some(_), Some(_), Some(_), None) => Err(ParseGeometryError::ParseArgument(3)),
            (Some(x), Some(y), Some(w), Some(h)) => Ok(Geometry { x, y, width: w, height: h }),
        }
    }
}

/// The shortest decimal digits of `n`.
pub open spec fn decimal_text(n: nat) -> Seq<u8>
    decreases n,
{
    if n < 10 {
        seq![(n + DIGIT_ZERO) as u8]
    } else {
        decimal_text(n / 10).push((n % 10 + DIGIT_ZERO) as u8)
    }
}

pub open spec fn signed_text(v: int) -> Seq<u8> {
    if v < 0 {
        seq![MINUS] + decimal_text((-v) as nat)
    } else {
        decimal_text(v as nat)
    }
}

/// The layout `x,y WxH`.
pub open spec fn rect_text(x: int, y: int, w: int, h: int) -> Seq<u8> {
    signed_text(x) + seq![COMMA] + signed_text(y) + seq![SPACE] + signed_text(w) + seq![TIMES]
        + signed_text(h)
}

impl Geometry {
    pub open spec fn text_spec(self) -> Seq<u8> {
        rect_text(self.x as int, self.y as int, self.width as int, self.height as int)
    }

    /// True when the rectangle is too thin to be a deliberate selection.
    pub open spec fn is_degenerate_spec(self) -> bool {
        self.width <= 2 || self.height <= 2
    }

    pub fn is_degenerate(&self) -> (r: bool)
        ensures
            r == self.is_degenerate_spec(),
    {
        self.width <= 2 || self.height <= 2
    }

    /// Reads a rectangle from `x,y WxH` or `x y w h` (any mix of white space,
    /// commas and `x` between the four fields).
    pub fn parse(text: &[u8]) -> (r: Result<Geometry, ParseGeometryError>)
        ensures
            r == parse_spec(text@),
    {
        let f = split_into_fields(text);
        if f.len() != 4 {
            return Err(ParseGeometryError::WrongArgumentsCount);
        }
        let x = match parse_i32(&f[0]) {
            Some(v) => v,
            None => return Err(ParseGeometryError::ParseArgument(0)),
        };
        let y = match parse_i32(&f[1]) {
            Some(v) => v,
            None => return Err(ParseGeometryError::ParseArgument(1)),
        };
        let width = match parse_u32(&f[2]) {
            Some(v) => v,
            None => return Err(ParseGeometryError::ParseArgument(2)),
        };
        let height = match parse_u32(&f[3]) {
            Some(v) => v,
            None => return Err(ParseGeometryError::ParseArgument(3)),
        };
        Ok(Geometry { x, y, width, height })
    }

    /// Writes the rectangle as `x,y WxH`.
    pub fn to_text(&self) -> (r: Vec<u8>)
        ensures
            r@ == self.text_spec(),
    {
        let mut out: Vec<u8> = Vec::new();
        push_rect_text(&mut out, self.x as i64, self.y as i64, self.width as i64, self.height as i64);
        proof {
            assert(out@ =~= self.text_spec());
        }
        out
    }
}

pub open spec fn field_views(f: Seq<Vec<u8>>) -> Seq<Seq<u8>> {
    f.map_values(|v: Vec<u8>| v@)
}

fn is_separator_byte(b: u8) -> (r: bool)
    ensures
        r == is_separator(b),
{
    b == SPACE || (9 <= b && b <= 13) || b == COMMA || b == TIMES
}

fn split_into_fields(s: &[u8]) -> (r: Vec<Vec<u8>>)
    ensures
        field_views(r@) == fields(s@),
{
    let mut done: Vec<Vec<u8>> = Vec::new();
    let mut run: Vec<u8> = Vec::new();
    let mut i: usize = 0;
    while i < s.len()
        invariant
            i <= s@.len(),
            field_views(done@) == split_fields(s@.take(i as int)).0,
            run@ == split_fields(s@.take(i as int)).1,
        decreases s.len() - i,
    {
        let b = s[i];
        proof {
            assert(s@.take(i as int + 1).drop_last() =~= s@.take(i as int));
        }
        if !is_separator_byte(b) {
            run.push(b);
        } else if run.len() > 0 {
            let ghost before = done@;
            let ghost open_run = run@;
            done.push(run);
            run = Vec::new();
            proof {
                assert(field_views(done@) =~= field_views(before).push(open_run));
            }
        }
        i += 1;
    }
    proof {
        assert(s@.take(s@.len() as int) =~= s@);
    }
    if run.len() > 0 {
        let ghost before = done@;
        let ghost open_run = run@;
        done.push(run);
        proof {
            assert(field_views(done@) =~= field_views(before).push(open_run));
        }
    }
    done
}

proof fn lemma_digits_prefix(t: Seq<u8>, k: int)
    requires
        0 <= k <= t.len(),
    ensures
        digits_value(t.take(k)) <= digits_value(t),
    decreases t.len(),
{
    if k < t.len() {
        lemma_digits_prefix(t.drop_last(), k);
        assert(t.drop_last().take(k) =~= t.take(k));
    } else {
        assert(t.take(k) =~= t);
    }
}

/// Reads the digits of `t` from `start` on, as a number no larger than `limit`.
fn parse_decimal(t: &Vec<u8>, start: usize, limit: u64) -> (r: Option<u64>)
    requires
        start <= t@.len(),
        limit <= u32::MAX as u64 + 1,
    ensures
        match decimal_value(t@.subrange(start as int, t@.len() as int)) {
            Some(v) => if v <= limit {
                r == Some(v as u64)
            } else {
                r is None
            },
            None => r is None,
        },
{
    let ghost body = t@.subrange(start as int, t@.len() as int);
    if start == t.len() {
        return None;
    }
    let mut acc: u64 = 0;
    let mut i: usize = start;
    while i < t.len()
        invariant
            start <= i <= t@.len(),
            body == t@.subrange(start as int, t@.len() as int),
            acc <= limit,
            limit <= u32::MAX as u64 + 1,
            all_digits(t@.subrange(start as int, i as int)),
            acc == digits_value(t@.subrange(start as int, i as int)),
        decreases t.len() - i,
    {
        let b = t[i];
        let ghost done = t@.subrange(start as int, i as int);
        let ghost next = t@.subrange(start as int, i as int + 1);
        proof {
            assert(next.drop_last() =~= done);
            assert(body.take(i - start + 1) =~= next);
        }
        if b < DIGIT_ZERO || b > DIGIT_NINE {
            proof {
                assert(body[i - start] == b);
            }
            return None;
        }
        let d = (b - DIGIT_ZERO) as u64;
        if acc * 10 + d > limit {
            proof {
                if all_digits(body) {
                    lemma_digits_prefix(body, i - start + 1);
                }
            }
            return None;
        }
        acc = acc * 10 + d;
        i += 1;
    }
    Some(acc)
}

fn parse_u32(t: &Vec<u8>) -> (r: Option<u32>)
    ensures
        r == field_u32(t@),
{
    let start: usize = if t.len() > 0 && t[0] == PLUS { 1 } else { 0 };
    proof {
        assert(t@.subrange(1, t@.len() as int) =~= t@.drop_first());
        assert(t@.subrange(0, t@.len() as int) =~= t@);
    }
    match parse_decimal(t, start, u32::MAX as u64) {
        Some(v) => Some(v as u32),
        None => None,
    }
}

fn parse_i32(t: &Vec<u8>) -> (r: Option<i32>)
    ensures
        r == field_i32(t@),
{
    proof {
        assert(t@.subrange(1, t@.len() as int) =~= t@.drop_first());
        assert(t@.subrange(0, t@.len() as int) =~= t@);
    }
    if t.len() > 0 && t[0] == MINUS {
        match parse_decimal(t, 1, i32::MAX as u64 + 1) {
            Some(v) => Some((-(v as i64)) as i32),
            None => None,
        }
    } else {
        let start: usize = if t.len() > 0 && t[0] == PLUS { 1 } else { 0 };
        match parse_decimal(t, start, i32::MAX as u64) {
            Some(v) => Some(v as i32),
            None => None,
        }
    }
}

fn push_decimal(out: &mut Vec<u8>, n: u64)
    ensures
        final(out)@ == old(out)@ + decimal_text(n as nat),
    decreases n,
{
    let ghost start = out@;
    if n >= 10 {
        push_decimal(out, n / 10);
    }
    out.push((n % 10) as u8 + DIGIT_ZERO);
    proof {
        if n >= 10 {
            assert(out@ =~= start + decimal_text((n / 10) as nat).push((n % 10 + DIGIT_ZERO) as u8));
        } else {
            assert(out@ =~= start + decimal_text(n as nat));
        }
    }
}

fn push_signed(out: &mut Vec<u8>, v: i64)
    ensures
        final(out)@ == old(out)@ + signed_text(v as int),
{
    let ghost start = out@;
    if v < 0 {
        out.push(MINUS);
        let m: u64 = (-(v + 1)) as u64 + 1;
        push_decimal(out, m);
        proof {
            assert(out@ =~= start + (seq![MINUS] + decimal_text((-v) as nat)));
        }
    } else {
        push_decimal(out, v as u64);
    }
}

/// Appends `x,y WxH`.
pub(crate) fn push_rect_text(out: &mut Vec<u8>, x: i64, y: i64, w: i64, h: i64)
    ensures
        final(out)@ == old(out)@ + rect_text(x as int, y as int, w as int, h as int),
{
    let ghost start = out@;
    push_signed(out, x);
    out.push(COMMA);
    push_signed(out, y);
    out.push(SPACE);
    push_signed(out, w);
    out.push(TIMES);
    push_signed(out, h);
    proof {
        assert(out@ =~= start + rect_text(x as int, y as int, w as int, h as int));
    }
}

proof fn lemma_decimal_text(n: nat)
    ensures
        decimal_text(n).len() > 0,
        all_digits(decimal_text(n)),
        digits_value(decimal_text(n)) == n,
    decreases n,
{
    let t = decimal_text(n);
    if n >= 10 {
        lemma_decimal_text(n / 10);
        assert(t.drop_last() =~= decimal_text(n / 10));
        assert(t.last() - DIGIT_ZERO == n % 10);
        assert((n / 10) * 10 + n % 10 == n) by (nonlinear_arith);
    } else {
        assert(t.drop_last() =~= Seq::<u8>::empty());
        assert(digits_value(t.drop_last()) == 0);
        assert(t.last() - DIGIT_ZERO == n);
    }
    assert(digits_value(t) == digits_value(t.drop_last()) * 10 + (t.last() - DIGIT_ZERO) as nat);
}

proof fn lemma_signed_text(v: int)
    ensures
        signed_text(v).len() > 0,
        no_separators(signed_text(v)),
        signed_field(signed_text(v)) == Some(v),
        0 <= v ==> unsigned_field(signed_text(v)) == Some(v),
        i32::MIN <= v <= i32::MAX ==> field_i32(signed_text(v)) == Some(v as i32),
        0 <= v <= u32::MAX ==> field_u32(signed_text(v)) == Some(v as u32),
{
    let t = signed_text(v);
    if v < 0 {
        let d = decimal_text((-v) as nat);
        lemma_decimal_text((-v) as nat);
        assert(t.drop_first() =~= d);
        assert forall|i: int| 0 <= i < t.len() implies !is_separator(#[trigger] t[i]) by {
            if i > 0 {
                assert(t[i] == d[i - 1]);
            }
        }
    } else {
        lemma_decimal_text(v as nat);
        assert(is_digit(t[0]));
    }
}

/// Appending bytes that are no separators extends the open run.
proof fn lemma_split_run(s: Seq<u8>, t: Seq<u8>)
    requires
        no_separators(t),
    ensures
        split_fields(s + t) == (split_fields(s).0, split_fields(s).1 + t),
    decreases t.len(),
{
    if t.len() == 0 {
        assert(s + t =~= s);
        assert(split_fields(s).1 + t =~= split_fields(s).1);
    } else {
        lemma_split_run(s, t.drop_last());
        assert((s + t).drop_last() =~= s + t.drop_last());
        assert(split_fields(s).1 + t =~= (split_fields(s).1 + t.drop_last()).push(t.last()));
        assert(!is_separator(t[t.len() - 1]));
    }
}

/// A separator closes the open run, when there is one.
proof fn lemma_split_separator(s: Seq<u8>, c: u8)
    requires
        is_separator(c),
        split_fields(s).1.len() > 0,
    ensures
        split_fields(s + seq![c]) == (split_fields(s).0.push(split_fields(s).1), Seq::<u8>::empty()),
{
    assert((s + seq![c]).drop_last() =~= s);
}

/// Reading back the text of a rectangle gives the same rectangle.
pub proof fn lemma_text_round_trip(g: Geometry)
    ensures
        parse_spec(g.text_spec()) == Ok::<Geometry, ParseGeometryError>(g),
{
    let a = signed_text(g.x as int);
    let b = signed_text(g.y as int);
    let c = signed_text(g.width as int);
    let d = signed_text(g.height as int);
    lemma_signed_text(g.x as int);
    lemma_signed_text(g.y as int);
    lemma_signed_text(g.width as int);
    lemma_signed_text(g.height as int);
    let e = Seq::<u8>::empty();
    lemma_split_run(e, a);
    assert(e + a =~= a);
    assert(split_fields(a) == (Seq::<Seq<u8>>::empty(), a));
    let s1 = a + seq![COMMA];
    lemma_split_separator(a, COMMA);
    let s2 = s1 + b;
    lemma_split_run(s1, b);
    assert(e + b =~= b);
    assert(split_fields(s2) == (seq![a], b));
    let s3 = s2 + seq![SPACE];
    lemma_split_separator(s2, SPACE);
    let s4 = s3 + c;
    lemma_split_run(s3, c);
    assert(e + c =~= c);
    assert(split_fields(s4) == (seq![a, b], c)) by {
        assert(seq![a].push(b) =~= seq![a, b]);
    }
    let s5 = s4 + seq![TIMES];
    lemma_split_separator(s4, TIMES);
    let s6 = s5 + d;
    lemma_split_run(s5, d);
    assert(e + d =~= d);
    assert(split_fields(s6) == (seq![a, b, c], d)) by {
        assert(seq![a, b].push(c) =~= seq![a, b, c]);
    }
    assert(s6 == g.text_spec());
    let f = fields(s6);
    assert(f =~= seq![a, b, c, d]);
}

pub(crate) fn same_bytes(a: &[u8], b: &[u8]) -> (r: bool)
    ensures
        r == (a@ == b@),
{
    if a.len() != b.len() {
        return false;
    }
    let mut i: usize = 0;
    while i < a.len()
        invariant
            i <= a@.len(),
            a@.len() == b@.len(),
            forall|j: int| 0 <= j < i ==> a@[j] == b@[j],
        decreases a.len() - i,
    {
        if a[i] != b[i] {
            return false;
        }
        i += 1;
    }
    proof {
        assert(a@ =~= b@);
    }
    true
}

} // verus!
