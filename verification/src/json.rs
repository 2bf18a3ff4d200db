//! Character-level JSON machinery for the small record files and response
//! bodies the tool works with.
//!
//! The credential file and the provider responses are flat JSON objects whose
//! interesting members are strings, booleans and small integers.  This module
//! gives the crate one verified single-pass scanner over such objects, the
//! string-escaping rules used when a record is written back, and the helpers
//! that turn scanned members into plain values.

use vstd::prelude::*;

verus! {

// ---------------------------------------------------------------------------
// Trusted bridges to std
// ---------------------------------------------------------------------------

/// Relies on `String::push`: appends the given character to the end of the
/// string.
pub assume_specification[ String::push ](s: &mut String, c: char)
    ensures
        final(s)@ == old(s)@.push(c),
;

/// Relies on `char::from_u32`: converts the integer to a `char` exactly when
/// it is a Unicode scalar value (not a surrogate, below `0x110000`).
pub assume_specification[ char::from_u32 ](v: u32) -> (r: Option<char>)
    ensures
        r == (if v < 0xD800 || (0xE000 <= v && v < 0x110000) {
            Some(v as char)
        } else {
            None::<char>
        }),
;

// ---------------------------------------------------------------------------
// Conversions between text representations
// ---------------------------------------------------------------------------

/// The characters of a string slice, as a vector usable with plain indexing.
pub fn str_to_chars(s: &str) -> (r: Vec<char>)
    ensures
        r@ == s@,
{
    let n = s.unicode_len();
    let mut r: Vec<char> = Vec::new();
    let mut i: usize = 0;
    while i < n
        invariant
            i <= n,
            n == s@.len(),
            r@ == s@.take(i as int),
        decreases n - i,
    {
        r.push(s.get_char(i));
        i = i + 1;
        assert(r@ =~= s@.take(i as int));
    }
    assert(s@.take(n as int) =~= s@);
    r
}

/// The string holding exactly the given characters.
pub fn chars_to_string(v: &Vec<char>) -> (r: String)
    ensures
        r@ == v@,
{
    let mut r = String::new();
    let mut i: usize = 0;
    while i < v.len()
        invariant
            i <= v.len(),
            r@ == v@.take(i as int),
        decreases v.len() - i,
    {
        r.push(v[i]);
        i = i + 1;
        assert(r@ =~= v@.take(i as int));
    }
    assert(v@.take(v.len() as int) =~= v@);
    r
}

/// The characters of `v` from `from` (inclusive) to `to` (exclusive).
pub fn sub_chars(v: &Vec<char>, from: usize, to: usize) -> (r: Vec<char>)
    requires
        from <= to <= v@.len(),
    ensures
        r@ == v@.subrange(from as int, to as int),
{
    let mut r: Vec<char> = Vec::new();
    let mut i: usize = from;
    while i < to
        invariant
            from <= i <= to <= v@.len(),
            r@ == v@.subrange(from as int, i as int),
        decreases to - i,
    {
        r.push(v[i]);
        assert(r@ =~= v@.subrange(from as int, i as int + 1));
        i = i + 1;
    }
    r
}

/// Whether two character vectors hold the same text.
pub fn chars_eq(v: &Vec<char>, pat: &Vec<char>) -> (r: bool)
    ensures
        r == (v@ == pat@),
{
    if v.len() != pat.len() {
        return false;
    }
    let mut i: usize = 0;
    while i < v.len()
        invariant
            i <= v.len(),
            v.len() == pat.len(),
            forall|j: int| 0 <= j < i ==> v@[j] == pat@[j],
        decreases v.len() - i,
    {
        if v[i] != pat[i] {
            return false;
        }
        i = i + 1;
    }
    assert(v@ =~= pat@);
    true
}

// ---------------------------------------------------------------------------
// String-member escaping
// ---------------------------------------------------------------------------

/// The lower-case hexadecimal digit for a value below 16.
pub open spec fn hex_char(n: int) -> char {
    if n == 0 {
        '0'
    } else if n == 1 {
        '1'
    } else if n == 2 {
        '2'
    } else if n == 3 {
        '3'
    } else if n == 4 {
        '4'
    } else if n == 5 {
        '5'
    } else if n == 6 {
        '6'
    } else if n == 7 {
        '7'
    } else if n == 8 {
        '8'
    } else if n == 9 {
        '9'
    } else if n == 10 {
        'a'
    } else if n == 11 {
        'b'
    } else if n == 12 {
        'c'
    } else if n == 13 {
        'd'
    } else if n == 14 {
        'e'
    } else {
        'f'
    }
}

/// The numeric value of a hexadecimal digit, upper or lower case.
pub open spec fn hex_val(c: char) -> Option<int> {
    let u = c as u32;
    if '0' <= c && c <= '9' {
        Some(u - 48)
    } else if 'a' <= c && c <= 'f' {
        Some(u - 87)
    } else if 'A' <= c && c <= 'F' {
        Some(u - 55)
    } else {
        None
    }
}

/// How one character of a string member is written inside a JSON string
/// literal: quote and backslash get a backslash escape, control characters a
/// `\u00XX` escape, and everything else stands as itself.
pub open spec fn esc_char(c: char) -> Seq<char> {
    if c == '"' {
        seq!['\\', '"']
    } else if c == '\\' {
        seq!['\\', '\\']
    } else if (c as u32) < 0x20 {
        seq!['\\', 'u', '0', '0', hex_char((c as u32) as int / 16), hex_char((c as u32) as int % 16)]
    } else {
        seq![c]
    }
}

/// The JSON string-literal body for a whole string member.
pub open spec fn escape(s: Seq<char>) -> Seq<char>
    decreases s.len(),
{
    if s.len() == 0 {
        Seq::empty()
    } else {
        esc_char(s[0]) + escape(s.drop_first())
    }
}

/// Escaping a concatenation escapes the parts in place.
pub proof fn lemma_escape_concat(a: Seq<char>, b: Seq<char>)
    ensures
        escape(a + b) == escape(a) + escape(b),
    decreases a.len(),
{
    if a.len() == 0 {
        assert(a + b =~= b);
        assert(escape(a) + escape(b) =~= escape(b));
    } else {
        assert((a + b).drop_first() =~= a.drop_first() + b);
        lemma_escape_concat(a.drop_first(), b);
        assert(escape(a + b) =~= escape(a) + escape(b));
    }
}

/// Appends the escaped form of one character.
pub fn esc_char_push(out: &mut Vec<char>, c: char)
    ensures
        final(out)@ == old(out)@ + esc_char(c),
{
    if c == '"' {
        out.push('\\');
        out.push('"');
    } else if c == '\\' {
        out.push('\\');
        out.push('\\');
    } else if (c as u32) < 0x20 {
        let u = c as u32;
        out.push('\\');
        out.push('u');
        out.push('0');
        out.push('0');
        out.push(hex_char_ex(u / 16));
        out.push(hex_char_ex(u % 16));
    } else {
        out.push(c);
    }
    assert(out@ =~= old(out)@ + esc_char(c));
}

/// The executable form of [`hex_char`].
pub fn hex_char_ex(n: u32) -> (c: char)
    requires
        n < 16,
    ensures
        c == hex_char(n as int),
{
    if n == 0 {
        '0'
    } else if n == 1 {
        '1'
    } else if n == 2 {
        '2'
    } else if n == 3 {
        '3'
    } else if n == 4 {
        '4'
    } else if n == 5 {
        '5'
    } else if n == 6 {
        '6'
    } else if n == 7 {
        '7'
    } else if n == 8 {
        '8'
    } else if n == 9 {
        '9'
    } else if n == 10 {
        'a'
    } else if n == 11 {
        'b'
    } else if n == 12 {
        'c'
    } else if n == 13 {
        'd'
    } else if n == 14 {
        'e'
    } else {
        'f'
    }
}

/// Appends the escaped form of a whole string member.
pub fn escape_push(out: &mut Vec<char>, s: &Vec<char>)
    ensures
        final(out)@ == old(out)@ + escape(s@),
{
    let mut i: usize = 0;
    while i < s.len()
        invariant
            i <= s.len(),
            out@ == old(out)@ + escape(s@.take(i as int)),
        decreases s.len() - i,
    {
        esc_char_push(out, s[i]);
        proof {
            assert(s@.take(i as int + 1) =~= s@.take(i as int) + seq![s@[i as int]]);
            lemma_escape_concat(s@.take(i as int), seq![s@[i as int]]);
            let cs = seq![s@[i as int]];
            assert(cs.drop_first() =~= Seq::<char>::empty());
            assert(escape(Seq::<char>::empty()) =~= Seq::<char>::empty());
            assert(escape(cs) =~= esc_char(s@[i as int]));
        }
        i = i + 1;
    }
    assert(s@.take(s.len() as int) =~= s@);
}

} // verus!

verus! {

// ---------------------------------------------------------------------------
// Scanned members
// ---------------------------------------------------------------------------

/// The value of one object member, as the scanner reports it.  String members
/// are unescaped; `true`, `false` and `null` are recognized; any other bare
/// scalar keeps its raw text; a nested object or array keeps its raw text,
/// brackets included, so that a caller can scan it again.
#[verifier::ext_equal]
pub enum JsonValueV {
    Str(Seq<char>),
    Bool(bool),
    Null,
    Num(Seq<char>),
    Obj(Seq<char>),
    Arr(Seq<char>),
}

/// Executable form of [`JsonValueV`].
pub enum JsonValue {
    Str(Vec<char>),
    Bool(bool),
    Null,
    Num(Vec<char>),
    Obj(Vec<char>),
    Arr(Vec<char>),
}

impl View for JsonValue {
    type V = JsonValueV;

    open spec fn view(&self) -> JsonValueV {
        match self {
            JsonValue::Str(v) => JsonValueV::Str(v@),
            JsonValue::Bool(b) => JsonValueV::Bool(*b),
            JsonValue::Null => JsonValueV::Null,
            JsonValue::Num(v) => JsonValueV::Num(v@),
            JsonValue::Obj(v) => JsonValueV::Obj(v@),
            JsonValue::Arr(v) => JsonValueV::Arr(v@),
        }
    }
}

/// One member of the scanned object.
#[verifier::ext_equal]
pub struct FieldV {
    pub name: Seq<char>,
    pub value: JsonValueV,
}

/// Executable form of [`FieldV`].
pub struct JsonField {
    pub name: Vec<char>,
    pub value: JsonValue,
}

impl View for JsonField {
    type V = FieldV;

    open spec fn view(&self) -> FieldV {
        FieldV { name: self.name@, value: self.value@ }
    }
}

/// The members of a field vector, one level down.
pub open spec fn fields_view(s: Seq<JsonField>) -> Seq<FieldV> {
    s.map_values(|f: JsonField| f@)
}

pub broadcast proof fn lemma_fields_view_push(s: Seq<JsonField>, f: JsonField)
    ensures
        #[trigger] fields_view(s.push(f)) == fields_view(s).push(f@),
{
    assert(fields_view(s.push(f)) =~= fields_view(s).push(f@));
}

// ---------------------------------------------------------------------------
// The scanner's state machine
// ---------------------------------------------------------------------------

/// Where in the object the scanner stands.
#[derive(Clone, Copy, PartialEq, Eq, Structural, Debug)]
pub enum Mode {
    /// Before the opening brace.
    Start,
    /// Just after the opening brace: a member name or the closing brace.
    BeforeFirstKey,
    /// Just after a comma: a member name must follow.
    BeforeKey,
    /// Inside a member name.
    InKey,
    /// After a member name: a colon must follow.
    AfterKey,
    /// After the colon: a value must follow.
    BeforeValue,
    /// Inside a string value.
    InStr,
    /// Inside a string value, after a backslash.
    InStrEsc,
    /// Inside a string value, reading the digits of a `\u` escape.
    InStrEscU,
    /// Inside a nested object or array that is kept as raw text.
    Nest,
    /// Inside a string within the nested value.
    NestStr,
    /// Inside a string within the nested value, after a backslash.
    NestStrEsc,
    /// Inside a bare scalar such as a number, `true`, `false` or `null`.
    Scalar,
    /// After a complete value: a comma or the closing brace.
    AfterValue,
    /// After the closing brace: only whitespace may follow.
    End,
    /// The text is not an object of this shape.
    Fail,
}

/// The full scanner state.
#[verifier::ext_equal]
pub struct ScanV {
    pub mode: Mode,
    pub key: Seq<char>,
    pub val: Seq<char>,
    pub depth: int,
    pub esc_val: int,
    pub esc_n: int,
    pub nest_obj: bool,
    pub fields: Seq<FieldV>,
}

/// Executable form of [`ScanV`].
pub struct Scan {
    pub mode: Mode,
    pub key: Vec<char>,
    pub val: Vec<char>,
    pub depth: usize,
    pub esc_val: u32,
    pub esc_n: u8,
    pub nest_obj: bool,
    pub fields: Vec<JsonField>,
}

impl View for Scan {
    type V = ScanV;

    open spec fn view(&self) -> ScanV {
        ScanV {
            mode: self.mode,
            key: self.key@,
            val: self.val@,
            depth: self.depth as int,
            esc_val: self.esc_val as int,
            esc_n: self.esc_n as int,
            nest_obj: self.nest_obj,
            fields: fields_view(self.fields@),
        }
    }
}

/// JSON whitespace.
pub open spec fn is_ws(c: char) -> bool {
    c == ' ' || c == '\t' || c == '\n' || c == '\r'
}

/// The numeric bounds that every reachable scanner state satisfies.
pub open spec fn scan_wf(st: ScanV) -> bool {
    &&& st.depth >= 0
    &&& 0 <= st.esc_n
    &&& 0 <= st.esc_val
    &&& (st.mode == Mode::InStrEscU ==> st.esc_n <= 3 && (st.esc_n == 0 ==> st.esc_val == 0) && (
    st.esc_n == 1 ==> st.esc_val < 16) && (st.esc_n == 2 ==> st.esc_val < 256) && (st.esc_n == 3
        ==> st.esc_val < 4096))
    &&& ((st.mode == Mode::Nest || st.mode == Mode::NestStr || st.mode == Mode::NestStrEsc)
        ==> st.depth >= 1)
}

/// The state that records one finished member.
pub open spec fn scan_commit(st: ScanV, v: JsonValueV, m: Mode) -> ScanV {
    ScanV {
        mode: m,
        key: Seq::empty(),
        val: Seq::empty(),
        depth: 0,
        fields: st.fields.push(FieldV { name: st.key, value: v }),
        ..st
    }
}

/// The rejecting state.
pub open spec fn scan_fail(st: ScanV) -> ScanV {
    ScanV { mode: Mode::Fail, ..st }
}

/// What a bare scalar means: the three JSON words, or raw number text.
pub open spec fn scalar_value(val: Seq<char>) -> JsonValueV {
    if val == seq!['t', 'r', 'u', 'e'] {
        JsonValueV::Bool(true)
    } else if val == seq!['f', 'a', 'l', 's', 'e'] {
        JsonValueV::Bool(false)
    } else if val == seq!['n', 'u', 'l', 'l'] {
        JsonValueV::Null
    } else {
        JsonValueV::Num(val)
    }
}

/// One character of progress through the object.
pub open spec fn scan_step(st: ScanV, c: char) -> ScanV {
    match st.mode {
        Mode::Start => if is_ws(c) {
            st
        } else if c == '{' {
            ScanV { mode: Mode::BeforeFirstKey, ..st }
        } else {
            scan_fail(st)
        },
        Mode::BeforeFirstKey => if is_ws(c) {
            st
        } else if c == '"' {
            ScanV { mode: Mode::InKey, key: Seq::empty(), ..st }
        } else if c == '}' {
            ScanV { mode: Mode::End, ..st }
        } else {
            scan_fail(st)
        },
        Mode::BeforeKey => if is_ws(c) {
            st
        } else if c == '"' {
            ScanV { mode: Mode::InKey, key: Seq::empty(), ..st }
        } else {
            scan_fail(st)
        },
        Mode::InKey => if c == '"' {
            ScanV { mode: Mode::AfterKey, ..st }
        } else if c == '\\' {
            scan_fail(st)
        } else {
            ScanV { key: st.key.push(c), ..st }
        },
        Mode::AfterKey => if is_ws(c) {
            st
        } else if c == ':' {
            ScanV { mode: Mode::BeforeValue, ..st }
        } else {
            scan_fail(st)
        },
        Mode::BeforeValue => if is_ws(c) {
            st
        } else if c == '"' {
            ScanV { mode: Mode::InStr, val: Seq::empty(), ..st }
        } else if c == '{' {
            ScanV { mode: Mode::Nest, val: seq!['{'], depth: 1, nest_obj: true, ..st }
        } else if c == '[' {
            ScanV { mode: Mode::Nest, val: seq!['['], depth: 1, nest_obj: false, ..st }
        } else if c == ',' || c == '}' || c == ']' || c == ':' {
            scan_fail(st)
        } else {
            ScanV { mode: Mode::Scalar, val: seq![c], ..st }
        },
        Mode::InStr => if c == '"' {
            scan_commit(st, JsonValueV::Str(st.val), Mode::AfterValue)
        } else if c == '\\' {
            ScanV { mode: Mode::InStrEsc, ..st }
        } else {
            ScanV { val: st.val.push(c), ..st }
        },
        Mode::InStrEsc => if c == '"' {
            ScanV { mode: Mode::InStr, val: st.val.push('"'), ..st }
        } else if c == '\\' {
            ScanV { mode: Mode::InStr, val: st.val.push('\\'), ..st }
        } else if c == '/' {
            ScanV { mode: Mode::InStr, val: st.val.push('/'), ..st }
        } else if c == 'n' {
            ScanV { mode: Mode::InStr, val: st.val.push('\n'), ..st }
        } else if c == 't' {
            ScanV { mode: Mode::InStr, val: st.val.push('\t'), ..st }
        } else if c == 'r' {
            ScanV { mode: Mode::InStr, val: st.val.push('\r'), ..st }
        } else if c == 'b' {
            ScanV { mode: Mode::InStr, val: st.val.push('\u{8}'), ..st }
        } else if c == 'f' {
            ScanV { mode: Mode::InStr, val: st.val.push('\u{c}'), ..st }
        } else if c == 'u' {
            ScanV { mode: Mode::InStrEscU, esc_val: 0, esc_n: 0, ..st }
        } else {
            scan_fail(st)
        },
        Mode::InStrEscU => match hex_val(c) {
            Option::None => scan_fail(st),
            Option::Some(h) => {
                let nv = st.esc_val * 16 + h;
                if st.esc_n == 3 {
                    if nv < 0xD800 || (0xE000 <= nv && nv < 0x110000) {
                        ScanV {
                            mode: Mode::InStr,
                            val: st.val.push((nv as u32) as char),
                            esc_val: 0,
                            esc_n: 0,
                            ..st
                        }
                    } else {
                        scan_fail(st)
                    }
                } else {
                    ScanV { esc_val: nv, esc_n: st.esc_n + 1, ..st }
                }
            },
        },
        Mode::Nest => if c == '"' {
            ScanV { mode: Mode::NestStr, val: st.val.push(c), ..st }
        } else if c == '{' || c == '[' {
            ScanV { depth: st.depth + 1, val: st.val.push(c), ..st }
        } else if c == '}' || c == ']' {
            if st.depth == 1 {
                scan_commit(
                    ScanV { val: st.val.push(c), ..st },
                    if st.nest_obj {
                        JsonValueV::Obj(st.val.push(c))
                    } else {
                        JsonValueV::Arr(st.val.push(c))
                    },
                    Mode::AfterValue,
                )
            } else {
                ScanV { depth: st.depth - 1, val: st.val.push(c), ..st }
            }
        } else {
            ScanV { val: st.val.push(c), ..st }
        },
        Mode::NestStr => if c == '\\' {
            ScanV { mode: Mode::NestStrEsc, val: st.val.push(c), ..st }
        } else if c == '"' {
            ScanV { mode: Mode::Nest, val: st.val.push(c), ..st }
        } else {
            ScanV { val: st.val.push(c), ..st }
        },
        Mode::NestStrEsc => ScanV { mode: Mode::NestStr, val: st.val.push(c), ..st },
        Mode::Scalar => if is_ws(c) {
            scan_commit(st, scalar_value(st.val), Mode::AfterValue)
        } else if c == ',' {
            scan_commit(st, scalar_value(st.val), Mode::BeforeKey)
        } else if c == '}' {
            scan_commit(st, scalar_value(st.val), Mode::End)
        } else {
            ScanV { val: st.val.push(c), ..st }
        },
        Mode::AfterValue => if is_ws(c) {
            st
        } else if c == ',' {
            ScanV { mode: Mode::BeforeKey, ..st }
        } else if c == '}' {
            ScanV { mode: Mode::End, ..st }
        } else {
            scan_fail(st)
        },
        Mode::End => if is_ws(c) {
            st
        } else {
            scan_fail(st)
        },
        Mode::Fail => st,
    }
}

/// The state before any character has been read.
pub open spec fn init_scan() -> ScanV {
    ScanV {
        mode: Mode::Start,
        key: Seq::empty(),
        val: Seq::empty(),
        depth: 0,
        esc_val: 0,
        esc_n: 0,
        nest_obj: false,
        fields: Seq::empty(),
    }
}

/// The scanner run over a whole text.
pub open spec fn scan_fold(s: Seq<char>, st: ScanV) -> ScanV
    decreases s.len(),
{
    if s.len() == 0 {
        st
    } else {
        scan_fold(s.drop_first(), scan_step(st, s[0]))
    }
}

/// What a text means as an object: its members in order, or nothing when the
/// text is not an object of the scanner's shape.
pub open spec fn scan_json(s: Seq<char>) -> Option<Seq<FieldV>> {
    let st = scan_fold(s, init_scan());
    if st.mode == Mode::End {
        Some(st.fields)
    } else {
        None
    }
}

pub proof fn lemma_step_wf(st: ScanV, c: char)
    requires
        scan_wf(st),
    ensures
        scan_wf(scan_step(st, c)),
{
}

pub proof fn lemma_fold_wf(s: Seq<char>, st: ScanV)
    requires
        scan_wf(st),
    ensures
        scan_wf(scan_fold(s, st)),
    decreases s.len(),
{
    if s.len() > 0 {
        lemma_step_wf(st, s[0]);
        lemma_fold_wf(s.drop_first(), scan_step(st, s[0]));
    }
}

/// The nesting depth can grow by at most one per character.
pub proof fn lemma_fold_depth(s: Seq<char>, st: ScanV)
    requires
        scan_wf(st),
    ensures
        scan_fold(s, st).depth <= st.depth + s.len(),
    decreases s.len(),
{
    if s.len() > 0 {
        lemma_step_wf(st, s[0]);
        assert(scan_step(st, s[0]).depth <= st.depth + 1);
        lemma_fold_depth(s.drop_first(), scan_step(st, s[0]));
    }
}

/// Scanning a concatenation scans the parts in order.
pub proof fn lemma_fold_concat(a: Seq<char>, b: Seq<char>, st: ScanV)
    ensures
        scan_fold(a + b, st) == scan_fold(b, scan_fold(a, st)),
    decreases a.len(),
{
    if a.len() == 0 {
        assert(a + b =~= b);
    } else {
        assert((a + b).drop_first() =~= a.drop_first() + b);
        assert((a + b)[0] == a[0]);
        lemma_fold_concat(a.drop_first(), b, scan_step(st, a[0]));
    }
}

/// Scanning one more character steps the final state once.
pub proof fn lemma_fold_snoc(s: Seq<char>, c: char, st: ScanV)
    ensures
        scan_fold(s.push(c), st) == scan_step(scan_fold(s, st), c),
{
    assert(s.push(c) =~= s + seq![c]);
    lemma_fold_concat(s, seq![c], st);
    let m = scan_fold(s, st);
    let e = seq![c].drop_first();
    assert(e =~= Seq::<char>::empty());
    assert(seq![c][0] == c);
    assert(scan_fold(seq![c], m) == scan_fold(e, scan_step(m, c)));
    assert(scan_fold(e, scan_step(m, c)) == scan_step(m, c));
}

} // verus!

verus! {

/// The executable form of [`is_ws`].
pub fn is_ws_ex(c: char) -> (r: bool)
    ensures
        r == is_ws(c),
{
    c == ' ' || c == '\t' || c == '\n' || c == '\r'
}

/// The executable form of [`hex_val`].
pub fn hex_val_ex(c: char) -> (r: Option<u32>)
    ensures
        match r {
            Some(h) => hex_val(c) == Some(h as int) && h < 16,
            None => hex_val(c) is None,
        },
{
    let u = c as u32;
    if 48 <= u && u <= 57 {
        Some(u - 48)
    } else if 97 <= u && u <= 102 {
        Some(u - 87)
    } else if 65 <= u && u <= 70 {
        Some(u - 55)
    } else {
        None
    }
}

/// The executable form of [`scalar_value`].
pub fn scalar_value_ex(v: Vec<char>) -> (r: JsonValue)
    ensures
        r@ == scalar_value(v@),
{
    if v.len() == 4 && v[0] == 't' && v[1] == 'r' && v[2] == 'u' && v[3] == 'e' {
        proof {
            assert(v@ =~= seq!['t', 'r', 'u', 'e']);
        }
        JsonValue::Bool(true)
    } else if v.len() == 5 && v[0] == 'f' && v[1] == 'a' && v[2] == 'l' && v[3] == 's' && v[4]
        == 'e' {
        proof {
            assert(v@ =~= seq!['f', 'a', 'l', 's', 'e']);
        }
        JsonValue::Bool(false)
    } else if v.len() == 4 && v[0] == 'n' && v[1] == 'u' && v[2] == 'l' && v[3] == 'l' {
        proof {
            assert(v@ =~= seq!['n', 'u', 'l', 'l']);
        }
        JsonValue::Null
    } else {
        JsonValue::Num(v)
    }
}

impl Scan {
    /// The state before any character has been read.
    pub fn new() -> (r: Scan)
        ensures
            r@ == init_scan(),
            scan_wf(r@),
    {
        let r = Scan {
            mode: Mode::Start,
            key: Vec::new(),
            val: Vec::new(),
            depth: 0,
            esc_val: 0,
            esc_n: 0,
            nest_obj: false,
            fields: Vec::new(),
        };
        proof {
            assert(fields_view(r.fields@) =~= Seq::<FieldV>::empty());
            assert(r@ =~= init_scan());
        }
        r
    }

    /// Records the member that just ended, with the given value and the mode
    /// that follows it.
    fn commit(&mut self, value: JsonValue, m: Mode)
        ensures
            final(self)@ == scan_commit(old(self)@, value@, m),
    {
        broadcast use lemma_fields_view_push;

        let mut name: Vec<char> = Vec::new();
        core::mem::swap(&mut name, &mut self.key);
        self.val = Vec::new();
        self.fields.push(JsonField { name, value });
        self.mode = m;
        self.depth = 0;
        assert(final(self)@ =~= scan_commit(old(self)@, value@, m));
    }

    /// One character of progress; the executable form of [`scan_step`].
    pub fn advance(&mut self, c: char)
        requires
            scan_wf(old(self)@),
            old(self)@.depth < usize::MAX,
        ensures
            final(self)@ == scan_step(old(self)@, c),
            scan_wf(final(self)@),
    {
        proof {
            lemma_step_wf(old(self)@, c);
        }
        match self.mode {
            Mode::Start => {
                if is_ws_ex(c) {
                } else if c == '{' {
                    self.mode = Mode::BeforeFirstKey;
                } else {
                    self.mode = Mode::Fail;
                }
            },
            Mode::BeforeFirstKey => {
                if is_ws_ex(c) {
                } else if c == '"' {
                    self.mode = Mode::InKey;
                    self.key = Vec::new();
                } else if c == '}' {
                    self.mode = Mode::End;
                } else {
                    self.mode = Mode::Fail;
                }
            },
            Mode::BeforeKey => {
                if is_ws_ex(c) {
                } else if c == '"' {
                    self.mode = Mode::InKey;
                    self.key = Vec::new();
                } else {
                    self.mode = Mode::Fail;
                }
            },
            Mode::InKey => {
                if c == '"' {
                    self.mode = Mode::AfterKey;
                } else if c == '\\' {
                    self.mode = Mode::Fail;
                } else {
                    self.key.push(c);
                }
            },
            Mode::AfterKey => {
                if is_ws_ex(c) {
                } else if c == ':' {
                    self.mode = Mode::BeforeValue;
                } else {
                    self.mode = Mode::Fail;
                }
            },
            Mode::BeforeValue => {
                if is_ws_ex(c) {
                } else if c == '"' {
                    self.mode = Mode::InStr;
                    self.val = Vec::new();
                } else if c == '{' {
                    self.mode = Mode::Nest;
                    self.val = Vec::new();
                    self.val.push('{');
                    self.depth = 1;
                    self.nest_obj = true;
                    assert(self@.val =~= seq!['{']);
                } else if c == '[' {
                    self.mode = Mode::Nest;
                    self.val = Vec::new();
                    self.val.push('[');
                    self.depth = 1;
                    self.nest_obj = false;
                    assert(self@.val =~= seq!['[']);
                } else if c == ',' || c == '}' || c == ']' || c == ':' {
                    self.mode = Mode::Fail;
                } else {
                    self.mode = Mode::Scalar;
                    self.val = Vec::new();
                    self.val.push(c);
                    assert(self@.val =~= seq![c]);
                }
            },
            Mode::InStr => {
                if c == '"' {
                    let mut sval: Vec<char> = Vec::new();
                    core::mem::swap(&mut sval, &mut self.val);
                    self.commit(JsonValue::Str(sval), Mode::AfterValue);
                } else if c == '\\' {
                    self.mode = Mode::InStrEsc;
                } else {
                    self.val.push(c);
                }
            },
            Mode::InStrEsc => {
                if c == '"' {
                    self.mode = Mode::InStr;
                    self.val.push('"');
                } else if c == '\\' {
                    self.mode = Mode::InStr;
                    self.val.push('\\');
                } else if c == '/' {
                    self.mode = Mode::InStr;
                    self.val.push('/');
                } else if c == 'n' {
                    self.mode = Mode::InStr;
                    self.val.push('\n');
                } else if c == 't' {
                    self.mode = Mode::InStr;
                    self.val.push('\t');
                } else if c == 'r' {
                    self.mode = Mode::InStr;
                    self.val.push('\r');
                } else if c == 'b' {
                    self.mode = Mode::InStr;
                    self.val.push('\u{8}');
                } else if c == 'f' {
                    self.mode = Mode::InStr;
                    self.val.push('\u{c}');
                } else if c == 'u' {
                    self.mode = Mode::InStrEscU;
                    self.esc_val = 0;
                    self.esc_n = 0;
                } else {
                    self.mode = Mode::Fail;
                }
            },
            Mode::InStrEscU => {
                match hex_val_ex(c) {
                    None => {
                        self.mode = Mode::Fail;
                    },
                    Some(h) => {
                        let nv: u32 = self.esc_val * 16 + h;
                        if self.esc_n == 3 {
                            match char::from_u32(nv) {
                                Some(ch) => {
                                    self.mode = Mode::InStr;
                                    self.val.push(ch);
                                    self.esc_val = 0;
                                    self.esc_n = 0;
                                },
                                None => {
                                    self.mode = Mode::Fail;
                                },
                            }
                        } else {
                            self.esc_val = nv;
                            self.esc_n = self.esc_n + 1;
                        }
                    },
                }
            },
            Mode::Nest => {
                if c == '"' {
                    self.mode = Mode::NestStr;
                    self.val.push(c);
                } else if c == '{' || c == '[' {
                    self.depth = self.depth + 1;
                    self.val.push(c);
                } else if c == '}' || c == ']' {
                    if self.depth == 1 {
                        self.val.push(c);
                        let mut sval: Vec<char> = Vec::new();
                        core::mem::swap(&mut sval, &mut self.val);
                        if self.nest_obj {
                            self.commit(JsonValue::Obj(sval), Mode::AfterValue);
                        } else {
                            self.commit(JsonValue::Arr(sval), Mode::AfterValue);
                        }
                    } else {
                        self.depth = self.depth - 1;
                        self.val.push(c);
                    }
                } else {
                    self.val.push(c);
                }
            },
            Mode::NestStr => {
                if c == '\\' {
                    self.mode = Mode::NestStrEsc;
                    self.val.push(c);
                } else if c == '"' {
                    self.mode = Mode::Nest;
                    self.val.push(c);
                } else {
                    self.val.push(c);
                }
            },
            Mode::NestStrEsc => {
                self.mode = Mode::NestStr;
                self.val.push(c);
            },
            Mode::Scalar => {
                if is_ws_ex(c) {
                    let mut sval: Vec<char> = Vec::new();
                    core::mem::swap(&mut sval, &mut self.val);
                    let v = scalar_value_ex(sval);
                    self.commit(v, Mode::AfterValue);
                } else if c == ',' {
                    let mut sval: Vec<char> = Vec::new();
                    core::mem::swap(&mut sval, &mut self.val);
                    let v = scalar_value_ex(sval);
                    self.commit(v, Mode::BeforeKey);
                } else if c == '}' {
                    let mut sval: Vec<char> = Vec::new();
                    core::mem::swap(&mut sval, &mut self.val);
                    let v = scalar_value_ex(sval);
                    self.commit(v, Mode::End);
                } else {
                    self.val.push(c);
                }
            },
            Mode::AfterValue => {
                if is_ws_ex(c) {
                } else if c == ',' {
                    self.mode = Mode::BeforeKey;
                } else if c == '}' {
                    self.mode = Mode::End;
                } else {
                    self.mode = Mode::Fail;
                }
            },
            Mode::End => {
                if is_ws_ex(c) {
                } else {
                    self.mode = Mode::Fail;
                }
            },
            Mode::Fail => {},
        }
    }
}

/// Scans a whole text as one flat object; the executable form of
/// [`scan_json`].
pub fn scan_object(s: &Vec<char>) -> (r: Option<Vec<JsonField>>)
    ensures
        match r {
            Some(fields) => scan_json(s@) == Some(fields_view(fields@)),
            None => scan_json(s@) is None,
        },
{
    let mut st = Scan::new();
    let mut i: usize = 0;
    while i < s.len()
        invariant
            i <= s.len(),
            st@ == scan_fold(s@.take(i as int), init_scan()),
            scan_wf(st@),
        decreases s.len() - i,
    {
        proof {
            lemma_fold_depth(s@.take(i as int), init_scan());
            assert(s@.take(i as int).len() == i);
        }
        st.advance(s[i]);
        proof {
            assert(s@.take(i as int + 1) =~= s@.take(i as int).push(s@[i as int]));
            lemma_fold_snoc(s@.take(i as int), s@[i as int], init_scan());
        }
        i = i + 1;
    }
    proof {
        assert(s@.take(s.len() as int) =~= s@);
    }
    if st.mode == Mode::End {
        Some(st.fields)
    } else {
        None
    }
}

} // verus!

verus! {

// ---------------------------------------------------------------------------
// Member lookup
// ---------------------------------------------------------------------------

/// How many members carry the given name.
pub open spec fn field_count(fs: Seq<FieldV>, name: Seq<char>) -> nat
    decreases fs.len(),
{
    if fs.len() == 0 {
        0
    } else {
        (if fs[0].name == name {
            1nat
        } else {
            0nat
        }) + field_count(fs.drop_first(), name)
    }
}

/// The first member with the given name, if any.
pub open spec fn find_field(fs: Seq<FieldV>, name: Seq<char>) -> Option<JsonValueV>
    decreases fs.len(),
{
    if fs.len() == 0 {
        None
    } else if fs[0].name == name {
        Some(fs[0].value)
    } else {
        find_field(fs.drop_first(), name)
    }
}

proof fn lemma_count_skip(fs: Seq<FieldV>, name: Seq<char>, i: int)
    requires
        0 <= i < fs.len(),
    ensures
        field_count(fs.skip(i), name) == (if fs[i].name == name {
            1nat
        } else {
            0nat
        }) + field_count(fs.skip(i + 1), name),
{
    assert(fs.skip(i).drop_first() =~= fs.skip(i + 1));
    assert(fs.skip(i)[0] == fs[i]);
}

proof fn lemma_find_skip(fs: Seq<FieldV>, name: Seq<char>, i: int)
    requires
        0 <= i < fs.len(),
    ensures
        find_field(fs.skip(i), name) == (if fs[i].name == name {
            Some(fs[i].value)
        } else {
            find_field(fs.skip(i + 1), name)
        }),
{
    assert(fs.skip(i).drop_first() =~= fs.skip(i + 1));
    assert(fs.skip(i)[0] == fs[i]);
}

/// Finds the member with the given name, insisting that it occur at most
/// once; the error reports a duplicated name.
pub fn find_unique(fields: &Vec<JsonField>, name: &Vec<char>) -> (r: Result<Option<usize>, ()>)
    ensures
        match r {
            Ok(None) => field_count(fields_view(fields@), name@) == 0 && find_field(
                fields_view(fields@),
                name@,
            ) is None,
            Ok(Some(i)) => field_count(fields_view(fields@), name@) == 1 && i < fields@.len()
                && fields@[i as int]@.name == name@ && find_field(fields_view(fields@), name@)
                == Some(fields@[i as int]@.value),
            Err(()) => field_count(fields_view(fields@), name@) >= 2,
        },
{
    let ghost fv = fields_view(fields@);
    proof {
        assert(fv.skip(0) =~= fv);
    }
    let mut i: usize = 0;
    let mut found: Option<usize> = None;
    let mut count: usize = 0;
    while i < fields.len()
        invariant
            i <= fields.len(),
            fv == fields_view(fields@),
            fv.len() == fields@.len(),
            count <= i,
            field_count(fv, name@) == count + field_count(fv.skip(i as int), name@),
            match found {
                Some(j) => count >= 1 && j < i && fv[j as int].name == name@ && find_field(
                    fv,
                    name@,
                ) == Some(fv[j as int].value),
                None => count == 0 && find_field(fv, name@) == find_field(
                    fv.skip(i as int),
                    name@,
                ),
            },
        decreases fields.len() - i,
    {
        proof {
            lemma_count_skip(fv, name@, i as int);
            lemma_find_skip(fv, name@, i as int);
        }
        if chars_eq(&fields[i].name, name) {
            count = count + 1;
            if count == 1 {
                found = Some(i);
            }
        }
        i = i + 1;
    }
    proof {
        assert(fv.skip(fields@.len() as int) =~= Seq::<FieldV>::empty());
    }
    if count >= 2 {
        Err(())
    } else {
        Ok(found)
    }
}

// ---------------------------------------------------------------------------
// Decimal numbers
// ---------------------------------------------------------------------------

/// The numeric value of a decimal digit.
pub open spec fn dec_val(c: char) -> Option<int> {
    let u = c as u32;
    if 48 <= u && u <= 57 {
        Some(u - 48)
    } else {
        None
    }
}

/// Whether every character is a decimal digit.
pub open spec fn all_digits(s: Seq<char>) -> bool {
    forall|i: int| 0 <= i < s.len() ==> #[trigger] dec_val(s[i]) is Some
}

/// The integer a digit string denotes, most significant digit first.
pub open spec fn digits_val(s: Seq<char>) -> int
    decreases s.len(),
{
    if s.len() == 0 {
        0
    } else {
        digits_val(s.drop_last()) * 10 + (if dec_val(s.last()) is Some {
            dec_val(s.last())->0
        } else {
            0
        })
    }
}

proof fn lemma_digits_val_nonneg(s: Seq<char>)
    ensures
        digits_val(s) >= 0,
    decreases s.len(),
{
    if s.len() > 0 {
        lemma_digits_val_nonneg(s.drop_last());
    }
}

proof fn lemma_digits_val_prefix(s: Seq<char>, j: int)
    requires
        0 <= j <= s.len(),
    ensures
        digits_val(s.take(j)) <= digits_val(s),
    decreases s.len() - j,
{
    if j < s.len() {
        lemma_digits_val_prefix(s, j + 1);
        assert(s.take(j + 1).drop_last() =~= s.take(j));
        assert(s.take(j + 1).last() == s[j]);
        lemma_digits_val_nonneg(s.take(j));
        assert(digits_val(s.take(j)) <= digits_val(s.take(j + 1)));
    } else {
        assert(s.take(j) =~= s);
    }
}

/// What a digit string means as a `u64`: defined exactly when the text is
/// non-empty, all digits, and the value fits.
pub open spec fn parse_u64_spec(s: Seq<char>) -> Option<u64> {
    if s.len() > 0 && all_digits(s) && digits_val(s) <= u64::MAX {
        Some(digits_val(s) as u64)
    } else {
        None
    }
}

/// Reads a decimal `u64`; the executable form of [`parse_u64_spec`].
pub fn parse_u64(s: &Vec<char>) -> (r: Option<u64>)
    ensures
        r == parse_u64_spec(s@),
{
    if s.len() == 0 {
        return None;
    }
    let mut acc: u64 = 0;
    let mut i: usize = 0;
    while i < s.len()
        invariant
            i <= s.len(),
            s@.len() > 0,
            acc == digits_val(s@.take(i as int)),
            all_digits(s@.take(i as int)),
        decreases s.len() - i,
    {
        let c = s[i];
        let u = c as u32;
        proof {
            assert(s@.take(i as int + 1).drop_last() =~= s@.take(i as int));
            assert(s@.take(i as int + 1).last() == s@[i as int]);
        }
        if !(48 <= u && u <= 57) {
            proof {
                assert(dec_val(s@[i as int]) is None);
                assert(!all_digits(s@));
            }
            return None;
        }
        let d: u64 = (u - 48) as u64;
        if acc > (u64::MAX - d) / 10 {
            proof {
                assert(digits_val(s@.take(i as int + 1)) == acc * 10 + d);
                assert(digits_val(s@.take(i as int + 1)) > u64::MAX);
                lemma_digits_val_prefix(s@, i as int + 1);
            }
            return None;
        }
        acc = acc * 10 + d;
        proof {
            assert(forall|j: int|
                0 <= j < i as int + 1 ==> #[trigger] dec_val(s@.take(i as int + 1)[j]) is Some);
        }
        i = i + 1;
    }
    proof {
        assert(s@.take(s.len() as int) =~= s@);
    }
    Some(acc)
}

} // verus!

verus! {

/// Appends all characters of one vector to another.
pub fn push_chars(out: &mut Vec<char>, v: &Vec<char>)
    ensures
        final(out)@ == old(out)@ + v@,
{
    let mut i: usize = 0;
    while i < v.len()
        invariant
            i <= v.len(),
            out@ == old(out)@ + v@.take(i as int),
        decreases v.len() - i,
    {
        out.push(v[i]);
        proof {
            assert(old(out)@ + v@.take(i as int + 1) =~= (old(out)@ + v@.take(i as int)).push(
                v@[i as int],
            ));
        }
        i = i + 1;
    }
    assert(old(out)@ + v@.take(v.len() as int) =~= old(out)@ + v@);
}

} // verus!

verus! {

// ---------------------------------------------------------------------------
// Reasoning principles about whole scans
// ---------------------------------------------------------------------------

/// Members already recorded ride along unchanged: prepending them to the
/// starting state prepends them to the result.
pub proof fn lemma_step_frame(st: ScanV, c: char, g: Seq<FieldV>)
    ensures
        (scan_step(ScanV { fields: g + st.fields, ..st }, c) == ScanV {
            fields: g + scan_step(st, c).fields,
            ..scan_step(st, c)
        }),
{
    let r = scan_step(st, c);
    assert(scan_step(ScanV { fields: g + st.fields, ..st }, c).fields =~= g + r.fields);
    assert(scan_step(ScanV { fields: g + st.fields, ..st }, c) =~= ScanV {
        fields: g + r.fields,
        ..r
    });
}

/// The whole-scan form of [`lemma_step_frame`].
pub proof fn lemma_fold_frame(s: Seq<char>, st: ScanV, g: Seq<FieldV>)
    ensures
        (scan_fold(s, ScanV { fields: g + st.fields, ..st }) == ScanV {
            fields: g + scan_fold(s, st).fields,
            ..scan_fold(s, st)
        }),
    decreases s.len(),
{
    if s.len() == 0 {
        assert(scan_fold(s, ScanV { fields: g + st.fields, ..st }) == ScanV {
            fields: g + st.fields,
            ..st
        });
    } else {
        lemma_step_frame(st, s[0], g);
        lemma_fold_frame(s.drop_first(), scan_step(st, s[0]), g);
    }
}

/// Scanning the escaped form of one character, inside a string value, adds
/// exactly that character to the value.
#[verifier::rlimit(50)]
pub proof fn lemma_scan_esc_char(st: ScanV, c: char)
    requires
        st.mode == Mode::InStr,
        st.esc_val == 0,
        st.esc_n == 0,
    ensures
        (scan_fold(esc_char(c), st) == ScanV { val: st.val.push(c), ..st }),
{
    reveal_with_fuel(scan_fold, 7);
    if c == '"' {
        assert(scan_fold(esc_char(c), st) =~= ScanV { val: st.val.push(c), ..st });
    } else if c == '\\' {
        assert(scan_fold(esc_char(c), st) =~= ScanV { val: st.val.push(c), ..st });
    } else if (c as u32) < 0x20 {
        let u = (c as u32) as int;
        assert(hex_val(hex_char(u / 16)) == Some(u / 16));
        assert(hex_val(hex_char(u % 16)) == Some(u % 16));
        assert((u / 16) * 16 + u % 16 == u);
        vstd::utf8::char_u32_cast(c, c as u32);
        assert(scan_fold(esc_char(c), st) =~= ScanV { val: st.val.push(c), ..st });
    } else {
        assert(scan_fold(esc_char(c), st) =~= ScanV { val: st.val.push(c), ..st });
    }
}

/// Scanning the escaped form of a whole string, inside a string value,
/// appends exactly that string to the value.
pub proof fn lemma_scan_string_body(st: ScanV, w: Seq<char>)
    requires
        st.mode == Mode::InStr,
        st.esc_val == 0,
        st.esc_n == 0,
    ensures
        (scan_fold(escape(w), st) == ScanV { val: st.val + w, ..st }),
    decreases w.len(),
{
    if w.len() == 0 {
        assert(st.val + w =~= st.val);
        assert(ScanV { val: st.val + w, ..st } =~= st);
    } else {
        lemma_fold_concat(esc_char(w[0]), escape(w.drop_first()), st);
        lemma_scan_esc_char(st, w[0]);
        let st1 = ScanV { val: st.val.push(w[0]), ..st };
        lemma_scan_string_body(st1, w.drop_first());
        assert(st.val.push(w[0]) + w.drop_first() =~= st.val + w);
        assert(scan_fold(escape(w), st) =~= ScanV { val: st.val + w, ..st });
    }
}

} // verus!

verus! {

// ---------------------------------------------------------------------------
// Typed member access
// ---------------------------------------------------------------------------

/// How one named string member reads from a scanned object: `None` when the
/// object cannot carry the member (duplicated, or not a string), `Some(None)`
/// when it is absent, `Some(Some(s))` when it holds the string `s`.
pub open spec fn string_member(fs: Seq<FieldV>, name: Seq<char>) -> Option<Option<Seq<char>>> {
    if field_count(fs, name) >= 2 {
        None
    } else {
        match find_field(fs, name) {
            Option::None => Some(None),
            Option::Some(JsonValueV::Str(s)) => Some(Some(s)),
            Option::Some(_) => None,
        }
    }
}

/// An absent member reads as the empty string.
pub open spec fn member_or_empty(o: Option<Seq<char>>) -> Seq<char> {
    match o {
        Some(s) => s,
        None => Seq::empty(),
    }
}

/// Reads one named string member; the executable form of [`string_member`].
pub fn get_string_member(fields: &Vec<JsonField>, name: &Vec<char>) -> (r: Result<
    Option<String>,
    (),
>)
    ensures
        match r {
            Ok(None) => string_member(fields_view(fields@), name@) == Some(None::<Seq<char>>),
            Ok(Some(s)) => string_member(fields_view(fields@), name@) == Some(Some(s@)),
            Err(()) => string_member(fields_view(fields@), name@) is None,
        },
{
    match find_unique(fields, name) {
        Err(()) => Err(()),
        Ok(None) => Ok(None),
        Ok(Some(i)) => match &fields[i].value {
            JsonValue::Str(v) => Ok(Some(chars_to_string(v))),
            _ => Err(()),
        },
    }
}

/// How one named integer member reads: as [`string_member`], with the raw
/// scalar read as a decimal `u64`.
pub open spec fn u64_member(fs: Seq<FieldV>, name: Seq<char>) -> Option<Option<u64>> {
    if field_count(fs, name) >= 2 {
        None
    } else {
        match find_field(fs, name) {
            Option::None => Some(None),
            Option::Some(JsonValueV::Num(raw)) => match parse_u64_spec(raw) {
                Some(v) => Some(Some(v)),
                None => None,
            },
            Option::Some(_) => None,
        }
    }
}

/// Reads one named integer member; the executable form of [`u64_member`].
pub fn get_u64_member(fields: &Vec<JsonField>, name: &Vec<char>) -> (r: Result<Option<u64>, ()>)
    ensures
        match r {
            Ok(None) => u64_member(fields_view(fields@), name@) == Some(None::<u64>),
            Ok(Some(v)) => u64_member(fields_view(fields@), name@) == Some(Some(v)),
            Err(()) => u64_member(fields_view(fields@), name@) is None,
        },
{
    match find_unique(fields, name) {
        Err(()) => Err(()),
        Ok(None) => Ok(None),
        Ok(Some(i)) => match &fields[i].value {
            JsonValue::Num(raw) => match parse_u64(raw) {
                Some(v) => Ok(Some(v)),
                None => Err(()),
            },
            _ => Err(()),
        },
    }
}

/// How one named boolean member reads.
pub open spec fn bool_member(fs: Seq<FieldV>, name: Seq<char>) -> Option<Option<bool>> {
    if field_count(fs, name) >= 2 {
        None
    } else {
        match find_field(fs, name) {
            Option::None => Some(None),
            Option::Some(JsonValueV::Bool(b)) => Some(Some(b)),
            Option::Some(_) => None,
        }
    }
}

/// Reads one named boolean member; the executable form of [`bool_member`].
pub fn get_bool_member(fields: &Vec<JsonField>, name: &Vec<char>) -> (r: Result<Option<bool>, ()>)
    ensures
        match r {
            Ok(None) => bool_member(fields_view(fields@), name@) == Some(None::<bool>),
            Ok(Some(b)) => bool_member(fields_view(fields@), name@) == Some(Some(b)),
            Err(()) => bool_member(fields_view(fields@), name@) is None,
        },
{
    match find_unique(fields, name) {
        Err(()) => Err(()),
        Ok(None) => Ok(None),
        Ok(Some(i)) => match &fields[i].value {
            JsonValue::Bool(b) => Ok(Some(*b)),
            _ => Err(()),
        },
    }
}

} // verus!

verus! {

// ---------------------------------------------------------------------------
// The first object of an array
// ---------------------------------------------------------------------------

/// Where the array scanner stands.
#[derive(Clone, Copy, PartialEq, Eq, Structural, Debug)]
pub enum ArrMode {
    /// Before the opening bracket.
    AStart,
    /// After the opening bracket: the first element must be an object.
    ABeforeElem,
    /// Inside the first element, keeping its raw text.
    ANest,
    /// Inside a string within the first element.
    ANestStr,
    /// Inside a string within the first element, after a backslash.
    ANestStrEsc,
    /// The first element has been captured.
    ADone,
    /// The text is not an array starting with an object.
    AFail,
}

/// The array scanner's state.
#[verifier::ext_equal]
pub struct ArrScanV {
    pub mode: ArrMode,
    pub depth: int,
    pub val: Seq<char>,
}

/// Executable form of [`ArrScanV`].
pub struct ArrScan {
    pub mode: ArrMode,
    pub depth: usize,
    pub val: Vec<char>,
}

impl View for ArrScan {
    type V = ArrScanV;

    open spec fn view(&self) -> ArrScanV {
        ArrScanV { mode: self.mode, depth: self.depth as int, val: self.val@ }
    }
}

/// The numeric bounds that every reachable array-scanner state satisfies.
pub open spec fn arr_wf(st: ArrScanV) -> bool {
    &&& st.depth >= 0
    &&& ((st.mode == ArrMode::ANest || st.mode == ArrMode::ANestStr || st.mode
        == ArrMode::ANestStrEsc) ==> st.depth >= 1)
}

/// One character of progress through the array.
pub open spec fn arr_step(st: ArrScanV, c: char) -> ArrScanV {
    match st.mode {
        ArrMode::AStart => if is_ws(c) {
            st
        } else if c == '[' {
            ArrScanV { mode: ArrMode::ABeforeElem, ..st }
        } else {
            ArrScanV { mode: ArrMode::AFail, ..st }
        },
        ArrMode::ABeforeElem => if is_ws(c) {
            st
        } else if c == '{' {
            ArrScanV { mode: ArrMode::ANest, depth: 1, val: seq!['{'], ..st }
        } else {
            ArrScanV { mode: ArrMode::AFail, ..st }
        },
        ArrMode::ANest => if c == '"' {
            ArrScanV { mode: ArrMode::ANestStr, val: st.val.push(c), ..st }
        } else if c == '{' || c == '[' {
            ArrScanV { depth: st.depth + 1, val: st.val.push(c), ..st }
        } else if c == '}' || c == ']' {
            if st.depth == 1 {
                ArrScanV { mode: ArrMode::ADone, depth: 0, val: st.val.push(c), ..st }
            } else {
                ArrScanV { depth: st.depth - 1, val: st.val.push(c), ..st }
            }
        } else {
            ArrScanV { val: st.val.push(c), ..st }
        },
        ArrMode::ANestStr => if c == '\\' {
            ArrScanV { mode: ArrMode::ANestStrEsc, val: st.val.push(c), ..st }
        } else if c == '"' {
            ArrScanV { mode: ArrMode::ANest, val: st.val.push(c), ..st }
        } else {
            ArrScanV { val: st.val.push(c), ..st }
        },
        ArrMode::ANestStrEsc => ArrScanV { mode: ArrMode::ANestStr, val: st.val.push(c), ..st },
        ArrMode::ADone => st,
        ArrMode::AFail => st,
    }
}

/// The state before any character has been read.
pub open spec fn arr_init() -> ArrScanV {
    ArrScanV { mode: ArrMode::AStart, depth: 0, val: Seq::empty() }
}

/// The array scanner run over a whole text.
pub open spec fn arr_fold(s: Seq<char>, st: ArrScanV) -> ArrScanV
    decreases s.len(),
{
    if s.len() == 0 {
        st
    } else {
        arr_fold(s.drop_first(), arr_step(st, s[0]))
    }
}

/// The raw text of the array's first element, defined when the text opens an
/// array whose first element is an object; what follows that element is not
/// looked at.
pub open spec fn first_object_of_array(s: Seq<char>) -> Option<Seq<char>> {
    let st = arr_fold(s, arr_init());
    if st.mode == ArrMode::ADone {
        Some(st.val)
    } else {
        None
    }
}

pub proof fn lemma_arr_step_wf(st: ArrScanV, c: char)
    requires
        arr_wf(st),
    ensures
        arr_wf(arr_step(st, c)),
{
}

proof fn lemma_arr_fold_snoc(s: Seq<char>, c: char, st: ArrScanV)
    ensures
        arr_fold(s.push(c), st) == arr_step(arr_fold(s, st), c),
    decreases s.len(),
{
    if s.len() == 0 {
        let e = s.push(c).drop_first();
        assert(e =~= Seq::<char>::empty());
        assert(s.push(c)[0] == c);
        assert(arr_fold(s.push(c), st) == arr_fold(e, arr_step(st, c)));
        assert(arr_fold(e, arr_step(st, c)) == arr_step(st, c));
    } else {
        assert(s.push(c).drop_first() =~= s.drop_first().push(c));
        assert(s.push(c)[0] == s[0]);
        assert(arr_fold(s.push(c), st) == arr_fold(s.drop_first().push(c), arr_step(st, s[0])));
        lemma_arr_fold_snoc(s.drop_first(), c, arr_step(st, s[0]));
    }
}

proof fn lemma_arr_fold_depth(s: Seq<char>, st: ArrScanV)
    requires
        arr_wf(st),
    ensures
        arr_fold(s, st).depth <= st.depth + s.len(),
    decreases s.len(),
{
    if s.len() > 0 {
        lemma_arr_step_wf(st, s[0]);
        assert(arr_step(st, s[0]).depth <= st.depth + 1);
        lemma_arr_fold_depth(s.drop_first(), arr_step(st, s[0]));
    }
}

/// Captures the first element of an array of objects; the executable form of
/// [`first_object_of_array`].
pub fn scan_first_object(s: &Vec<char>) -> (r: Option<Vec<char>>)
    ensures
        match r {
            Some(v) => first_object_of_array(s@) == Some(v@),
            None => first_object_of_array(s@) is None,
        },
{
    let mut st = ArrScan { mode: ArrMode::AStart, depth: 0, val: Vec::new() };
    proof {
        assert(st@ =~= arr_init());
    }
    let mut i: usize = 0;
    while i < s.len()
        invariant
            i <= s.len(),
            st@ == arr_fold(s@.take(i as int), arr_init()),
            arr_wf(st@),
        decreases s.len() - i,
    {
        proof {
            lemma_arr_fold_depth(s@.take(i as int), arr_init());
            assert(s@.take(i as int).len() == i);
        }
        let c = s[i];
        match st.mode {
            ArrMode::AStart => {
                if is_ws_ex(c) {
                } else if c == '[' {
                    st.mode = ArrMode::ABeforeElem;
                } else {
                    st.mode = ArrMode::AFail;
                }
            },
            ArrMode::ABeforeElem => {
                if is_ws_ex(c) {
                } else if c == '{' {
                    st.mode = ArrMode::ANest;
                    st.depth = 1;
                    st.val = Vec::new();
                    st.val.push('{');
                    assert(st@.val =~= seq!['{']);
                } else {
                    st.mode = ArrMode::AFail;
                }
            },
            ArrMode::ANest => {
                if c == '"' {
                    st.mode = ArrMode::ANestStr;
                    st.val.push(c);
                } else if c == '{' || c == '[' {
                    st.depth = st.depth + 1;
                    st.val.push(c);
                } else if c == '}' || c == ']' {
                    if st.depth == 1 {
                        st.mode = ArrMode::ADone;
                        st.depth = 0;
                        st.val.push(c);
                    } else {
                        st.depth = st.depth - 1;
                        st.val.push(c);
                    }
                } else {
                    st.val.push(c);
                }
            },
            ArrMode::ANestStr => {
                if c == '\\' {
                    st.mode = ArrMode::ANestStrEsc;
                    st.val.push(c);
                } else if c == '"' {
                    st.mode = ArrMode::ANest;
                    st.val.push(c);
                } else {
                    st.val.push(c);
                }
            },
            ArrMode::ANestStrEsc => {
                st.mode = ArrMode::ANestStr;
                st.val.push(c);
            },
            ArrMode::ADone => {},
            ArrMode::AFail => {},
        }
        proof {
            lemma_arr_step_wf(arr_fold(s@.take(i as int), arr_init()), s@[i as int]);
            assert(st@ =~= arr_step(arr_fold(s@.take(i as int), arr_init()), s@[i as int]));
            assert(s@.take(i as int + 1) =~= s@.take(i as int).push(s@[i as int]));
            lemma_arr_fold_snoc(s@.take(i as int), s@[i as int], arr_init());
        }
        i = i + 1;
    }
    proof {
        assert(s@.take(s@.len() as int) =~= s@);
    }
    match st.mode {
        ArrMode::ADone => Some(st.val),
        _ => None,
    }
}

} // verus!
