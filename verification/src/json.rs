use vstd::prelude::*;

verus! {

broadcast use vstd::seq::axiom_seq_index_decreases, vstd::std_specs::vec::axiom_vec_decreases_to_view;

/// A JSON document, with numbers kept as their raw text.
pub enum JsonValue {
    Null,
    Bool(bool),
    Num(String),
    Str(String),
    Arr(Vec<JsonValue>),
    Obj(Vec<(String, JsonValue)>),
}

/// The mathematical shape of a JSON document.
pub ghost enum JsonSpec {
    Null,
    Bool(bool),
    Num(Seq<char>),
    Str(Seq<char>),
    Arr(Seq<JsonSpec>),
    Obj(Seq<(Seq<char>, JsonSpec)>),
}

pub open spec fn jv_view(v: JsonValue) -> JsonSpec
    decreases v,
    via jv_view_decreases
{
    match v {
        JsonValue::Null => JsonSpec::Null,
        JsonValue::Bool(b) => JsonSpec::Bool(b),
        JsonValue::Num(s) => JsonSpec::Num(s@),
        JsonValue::Str(s) => JsonSpec::Str(s@),
        JsonValue::Arr(a) => JsonSpec::Arr(jv_view_seq(a@)),
        JsonValue::Obj(o) => JsonSpec::Obj(jv_view_fields(o@)),
    }
}

#[via_fn]
proof fn jv_view_decreases(v: JsonValue) {
    match v {
        JsonValue::Arr(a) => {
            assert(decreases_to!(v => a));
            assert(decreases_to!(a => a@));
        },
        JsonValue::Obj(o) => {
            assert(decreases_to!(v => o));
            assert(decreases_to!(o => o@));
        },
        _ => {},
    }
}

pub open spec fn jv_view_seq(s: Seq<JsonValue>) -> Seq<JsonSpec>
    decreases s,
{
    if s.len() == 0 {
        Seq::empty()
    } else {
        seq![jv_view(s[0])] + jv_view_seq(s.drop_first())
    }
}

pub open spec fn jv_view_fields(s: Seq<(String, JsonValue)>) -> Seq<(Seq<char>, JsonSpec)>
    decreases s,
{
    if s.len() == 0 {
        Seq::empty()
    } else {
        seq![(s[0].0@, jv_view(s[0].1))] + jv_view_fields(s.drop_first())
    }
}

impl View for JsonValue {
    type V = JsonSpec;

    open spec fn view(&self) -> JsonSpec {
        jv_view(*self)
    }
}

proof fn lemma_view_seq_cons(x: JsonValue, s: Seq<JsonValue>)
    ensures
        jv_view_seq(seq![x] + s) == seq![jv_view(x)] + jv_view_seq(s),
{
    assert((seq![x] + s).len() > 0);
    assert((seq![x] + s)[0] == x);
    assert((seq![x] + s).drop_first() =~= s);
}

proof fn lemma_view_fields_cons(x: (String, JsonValue), s: Seq<(String, JsonValue)>)
    ensures
        jv_view_fields(seq![x] + s) == seq![(x.0@, jv_view(x.1))] + jv_view_fields(s),
{
    assert((seq![x] + s).len() > 0);
    assert((seq![x] + s)[0] == x);
    assert((seq![x] + s).drop_first() =~= s);
}

// ----------------------------------------------------------------------
// The grammar: character classes and scanning
// ----------------------------------------------------------------------

/// The whitespace JSON allows between tokens.
pub open spec fn is_json_ws(c: char) -> bool {
    c == ' ' || c == '\t' || c == '\n' || c == '\r'
}

/// The first position at or after `i` holding no JSON whitespace.
pub open spec fn ws_end(s: Seq<char>, i: int) -> int
    decreases s.len() - i,
{
    if 0 <= i < s.len() && is_json_ws(s[i]) {
        ws_end(s, i + 1)
    } else {
        i
    }
}

fn ex_ws_end(v: &Vec<char>, i: usize) -> (r: usize)
    requires
        i <= v@.len(),
    ensures
        r as int == ws_end(v@, i as int),
        i <= r <= v@.len(),
    decreases v@.len() - i,
{
    if i < v.len() {
        let c = v[i];
        if c == ' ' || c == '\t' || c == '\n' || c == '\r' {
            return ex_ws_end(v, i + 1);
        }
    }
    i
}

/// A decimal digit.
pub open spec fn is_digit(c: char) -> bool {
    48 <= c as u32 && c as u32 <= 57
}

fn ex_is_digit(c: char) -> (r: bool)
    ensures
        r == is_digit(c),
{
    let n = c as u32;
    48 <= n && n <= 57
}

/// The first position at or after `i` holding no decimal digit.
pub open spec fn digits_end(s: Seq<char>, i: int) -> int
    decreases s.len() - i,
{
    if 0 <= i < s.len() && is_digit(s[i]) {
        digits_end(s, i + 1)
    } else {
        i
    }
}

fn ex_digits_end(v: &Vec<char>, i: usize) -> (r: usize)
    requires
        i <= v@.len(),
    ensures
        r as int == digits_end(v@, i as int),
        i <= r <= v@.len(),
    decreases v@.len() - i,
{
    if i < v.len() && ex_is_digit(v[i]) {
        ex_digits_end(v, i + 1)
    } else {
        i
    }
}

/// The end of the number of the JSON grammar that starts at `i`, `None`
/// where none starts there: an optional minus, an integer part without
/// leading zeros, then an optional fraction and an optional exponent,
/// each with at least one digit.
pub open spec fn sp_number_end(s: Seq<char>, i: int) -> Option<int> {
    let j = if 0 <= i < s.len() && s[i] == '-' {
        i + 1
    } else {
        i
    };
    if !(0 <= j < s.len() && is_digit(s[j])) {
        None
    } else {
        let k = if s[j] == '0' {
            j + 1
        } else {
            digits_end(s, j)
        };
        sp_number_frac(s, k)
    }
}

pub open spec fn sp_number_frac(s: Seq<char>, k: int) -> Option<int> {
    if 0 <= k < s.len() && s[k] == '.' {
        if k + 1 < s.len() && is_digit(s[k + 1]) {
            sp_number_exp(s, digits_end(s, k + 1))
        } else {
            None
        }
    } else {
        sp_number_exp(s, k)
    }
}

pub open spec fn sp_number_exp(s: Seq<char>, k: int) -> Option<int> {
    if 0 <= k < s.len() && (s[k] == 'e' || s[k] == 'E') {
        let m = if k + 1 < s.len() && (s[k + 1] == '+' || s[k + 1] == '-') {
            k + 2
        } else {
            k + 1
        };
        if m < s.len() && is_digit(s[m]) {
            Some(digits_end(s, m))
        } else {
            None
        }
    } else {
        Some(k)
    }
}

fn ex_number_end(v: &Vec<char>, i: usize) -> (r: Option<usize>)
    requires
        i <= v@.len(),
    ensures
        match r {
            None => sp_number_end(v@, i as int) is None,
            Some(e) => sp_number_end(v@, i as int) == Some(e as int) && i <= e <= v@.len(),
        },
{
    let j = if i < v.len() && v[i] == '-' {
        i + 1
    } else {
        i
    };
    if !(j < v.len() && ex_is_digit(v[j])) {
        return None;
    }
    let k = if v[j] == '0' {
        j + 1
    } else {
        ex_digits_end(v, j)
    };
    let k2 = if k < v.len() && v[k] == '.' {
        if k + 1 < v.len() && ex_is_digit(v[k + 1]) {
            ex_digits_end(v, k + 1)
        } else {
            return None;
        }
    } else {
        k
    };
    if k2 < v.len() && (v[k2] == 'e' || v[k2] == 'E') {
        let m = if k2 + 1 < v.len() && (v[k2 + 1] == '+' || v[k2 + 1] == '-') {
            k2 + 2
        } else {
            k2 + 1
        };
        if m < v.len() && ex_is_digit(v[m]) {
            Some(ex_digits_end(v, m))
        } else {
            None
        }
    } else {
        Some(k2)
    }
}

/// The value of a hexadecimal digit, or 16 for any other character.
pub open spec fn hex_val(c: char) -> int {
    if 48 <= c as u32 && c as u32 <= 57 {
        c as u32 - 48
    } else if 97 <= c as u32 && c as u32 <= 102 {
        c as u32 - 87
    } else if 65 <= c as u32 && c as u32 <= 70 {
        c as u32 - 55
    } else {
        16
    }
}

pub open spec fn is_hex(c: char) -> bool {
    hex_val(c) < 16
}

fn ex_hex_val(c: char) -> (r: u32)
    ensures
        r as int == hex_val(c),
{
    let n = c as u32;
    if 48 <= n && n <= 57 {
        n - 48
    } else if 97 <= n && n <= 102 {
        n - 87
    } else if 65 <= n && n <= 70 {
        n - 55
    } else {
        16
    }
}

/// The code of the four hexadecimal digits that start at `i`.
pub open spec fn hex4(s: Seq<char>, i: int) -> int {
    hex_val(s[i]) * 4096 + hex_val(s[i + 1]) * 256 + hex_val(s[i + 2]) * 16 + hex_val(s[i + 3])
}

pub open spec fn hex4_ok(s: Seq<char>, i: int) -> bool {
    is_hex(s[i]) && is_hex(s[i + 1]) && is_hex(s[i + 2]) && is_hex(s[i + 3])
}

// ----------------------------------------------------------------------
// The grammar: string bodies
// ----------------------------------------------------------------------

/// The decoded content of a string literal whose body continues at `i`,
/// together with the position after its closing quote.
pub open spec fn sp_string_body(s: Seq<char>, i: int) -> Option<(Seq<char>, int)>
    decreases s.len() - i, 0int,
{
    if i < 0 || i >= s.len() {
        None
    } else {
        let c = s[i];
        if c == '"' {
            Some((Seq::empty(), i + 1))
        } else if c == '\\' {
            if i + 2 > s.len() {
                None
            } else {
                let e = s[i + 1];
                if e == '"' || e == '\\' || e == '/' {
                    sp_str_cons(e, s, i + 2)
                } else if e == 'b' {
                    sp_str_cons(8 as char, s, i + 2)
                } else if e == 'f' {
                    sp_str_cons(12 as char, s, i + 2)
                } else if e == 'n' {
                    sp_str_cons(10 as char, s, i + 2)
                } else if e == 'r' {
                    sp_str_cons(13 as char, s, i + 2)
                } else if e == 't' {
                    sp_str_cons(9 as char, s, i + 2)
                } else if e == 'u' {
                    if i + 6 <= s.len() && hex4_ok(s, i + 2) {
                        let n = hex4(s, i + 2);
                        if 0xD800 <= n <= 0xDBFF {
                            if i + 12 <= s.len() && s[i + 6] == '\\' && s[i + 7] == 'u'
                                && hex4_ok(s, i + 8) {
                                let m = hex4(s, i + 8);
                                if 0xDC00 <= m <= 0xDFFF {
                                    sp_str_cons(
                                        (0x10000 + (n - 0xD800) * 0x400 + (m - 0xDC00)) as char,
                                        s,
                                        i + 12,
                                    )
                                } else {
                                    None
                                }
                            } else {
                                None
                            }
                        } else if 0xDC00 <= n <= 0xDFFF {
                            None
                        } else {
                            sp_str_cons(n as char, s, i + 6)
                        }
                    } else {
                        None
                    }
                } else {
                    None
                }
            }
        } else if (c as u32) < 0x20 {
            None
        } else {
            sp_str_cons(c, s, i + 1)
        }
    }
}

/// One decoded character, followed by the rest of the string body.
pub open spec fn sp_str_cons(c: char, s: Seq<char>, j: int) -> Option<(Seq<char>, int)>
    decreases s.len() - j, 1int,
{
    if j <= 0 {
        None
    } else {
        match sp_string_body(s, j) {
            Some((rest, k)) => Some((seq![c] + rest, k)),
            None => None,
        }
    }
}

fn ex_string_body(v: &Vec<char>, i: usize) -> (r: Option<(String, usize)>)
    requires
        i <= v@.len(),
    ensures
        match r {
            None => sp_string_body(v@, i as int) is None,
            Some((st, j)) => {
                &&& sp_string_body(v@, i as int) == Some((st@, j as int))
                &&& i < j <= v@.len()
            },
        },
    decreases v@.len() - i, 0int,
{
    if i >= v.len() {
        return None;
    }
    let c = v[i];
    if c == '"' {
        Some((String::new(), i + 1))
    } else if c == '\\' {
        if v.len() - i < 2 {
            return None;
        }
        let e = v[i + 1];
        if e == '"' || e == '\\' || e == '/' {
            ex_str_cons(e, v, i + 2)
        } else if e == 'b' {
            ex_str_cons(8 as char, v, i + 2)
        } else if e == 'f' {
            ex_str_cons(12 as char, v, i + 2)
        } else if e == 'n' {
            ex_str_cons(10 as char, v, i + 2)
        } else if e == 'r' {
            ex_str_cons(13 as char, v, i + 2)
        } else if e == 't' {
            ex_str_cons(9 as char, v, i + 2)
        } else if e == 'u' {
            if v.len() - i >= 6 {
                let h0 = ex_hex_val(v[i + 2]);
                let h1 = ex_hex_val(v[i + 3]);
                let h2 = ex_hex_val(v[i + 4]);
                let h3 = ex_hex_val(v[i + 5]);
                if h0 < 16 && h1 < 16 && h2 < 16 && h3 < 16 {
                    let n: u32 = h0 * 4096 + h1 * 256 + h2 * 16 + h3;
                    assert(n as int == hex4(v@, i + 2));
                    if 0xD800 <= n && n <= 0xDBFF {
                        if v.len() - i >= 12 && v[i + 6] == '\\' && v[i + 7] == 'u' {
                            let g0 = ex_hex_val(v[i + 8]);
                            let g1 = ex_hex_val(v[i + 9]);
                            let g2 = ex_hex_val(v[i + 10]);
                            let g3 = ex_hex_val(v[i + 11]);
                            if g0 < 16 && g1 < 16 && g2 < 16 && g3 < 16 {
                                let m: u32 = g0 * 4096 + g1 * 256 + g2 * 16 + g3;
                                assert(m as int == hex4(v@, i + 8));
                                if 0xDC00 <= m && m <= 0xDFFF {
                                    let code: u32 = 0x10000 + (n - 0xD800) * 0x400 + (m
                                        - 0xDC00);
                                    let copt = crate::text::char_of_u32(code);
                                    let cch = copt.unwrap();
                                    ex_str_cons(cch, v, i + 12)
                                } else {
                                    None
                                }
                            } else {
                                None
                            }
                        } else {
                            None
                        }
                    } else if 0xDC00 <= n && n <= 0xDFFF {
                        None
                    } else {
                        let copt = crate::text::char_of_u32(n);
                        let cch = copt.unwrap();
                        ex_str_cons(cch, v, i + 6)
                    }
                } else {
                    None
                }
            } else {
                None
            }
        } else {
            None
        }
    } else if (c as u32) < 0x20 {
        None
    } else {
        ex_str_cons(c, v, i + 1)
    }
}

// ----------------------------------------------------------------------
// The grammar: values, arrays, objects
// ----------------------------------------------------------------------

/// The JSON value that starts at `i`, with the position after it.
/// `depth` is how many more levels of arrays or objects may open here;
/// a document nested deeper is refused.
pub open spec fn sp_value(s: Seq<char>, i: int, depth: int) -> Option<(JsonSpec, int)>
    decreases s.len() - i, 2int,
{
    if i < 0 || i >= s.len() {
        None
    } else {
        let c = s[i];
        if c == 'n' {
            if i + 4 <= s.len() && s[i + 1] == 'u' && s[i + 2] == 'l' && s[i + 3] == 'l' {
                Some((JsonSpec::Null, i + 4))
            } else {
                None
            }
        } else if c == 't' {
            if i + 4 <= s.len() && s[i + 1] == 'r' && s[i + 2] == 'u' && s[i + 3] == 'e' {
                Some((JsonSpec::Bool(true), i + 4))
            } else {
                None
            }
        } else if c == 'f' {
            if i + 5 <= s.len() && s[i + 1] == 'a' && s[i + 2] == 'l' && s[i + 3] == 's' && s[i
                + 4] == 'e' {
                Some((JsonSpec::Bool(false), i + 5))
            } else {
                None
            }
        } else if c == '"' {
            match sp_string_body(s, i + 1) {
                Some((st, j)) => Some((JsonSpec::Str(st), j)),
                None => None,
            }
        } else if c == '[' {
            if depth <= 0 {
                None
            } else {
                let j = ws_end(s, i + 1);
                if j < i + 1 || j > s.len() {
                    None
                } else if j < s.len() && s[j] == ']' {
                    Some((JsonSpec::Arr(Seq::empty()), j + 1))
                } else {
                    match sp_elements(s, j, depth - 1) {
                        Some((es, k)) => Some((JsonSpec::Arr(es), k)),
                        None => None,
                    }
                }
            }
        } else if c == '{' {
            if depth <= 0 {
                None
            } else {
                let j = ws_end(s, i + 1);
                if j < i + 1 || j > s.len() {
                    None
                } else if j < s.len() && s[j] == '}' {
                    Some((JsonSpec::Obj(Seq::empty()), j + 1))
                } else {
                    match sp_members(s, j, depth - 1) {
                        Some((ms, k)) => Some((JsonSpec::Obj(ms), k)),
                        None => None,
                    }
                }
            }
        } else if c == '-' || is_digit(c) {
            match sp_number_end(s, i) {
                None => None,
                Some(e) => {
                    if e < i + 1 || e > s.len() {
                        None
                    } else {
                        Some((JsonSpec::Num(s.subrange(i, e)), e))
                    }
                },
            }
        } else {
            None
        }
    }
}

/// One or more comma-separated array elements, then the closing bracket.
pub open spec fn sp_elements(s: Seq<char>, i: int, depth: int) -> Option<(Seq<JsonSpec>, int)>
    decreases s.len() - i, 3int,
{
    match sp_value(s, i, depth) {
        None => None,
        Some((v, k)) => {
            if k <= i || k > s.len() {
                None
            } else {
                let k2 = ws_end(s, k);
                if k2 < k || k2 > s.len() {
                    None
                } else if k2 < s.len() && s[k2] == ',' {
                    let j = ws_end(s, k2 + 1);
                    if j <= i || j > s.len() {
                        None
                    } else {
                        match sp_elements(s, j, depth) {
                            Some((rest, m)) => Some((seq![v] + rest, m)),
                            None => None,
                        }
                    }
                } else if k2 < s.len() && s[k2] == ']' {
                    Some((seq![v], k2 + 1))
                } else {
                    None
                }
            }
        },
    }
}

/// One or more key-value members, then the closing brace.
pub open spec fn sp_members(s: Seq<char>, i: int, depth: int) -> Option<(
    Seq<(Seq<char>, JsonSpec)>,
    int,
)>
    decreases s.len() - i, 3int,
{
    if i < 0 || i >= s.len() || s[i] != '"' {
        None
    } else {
        match sp_string_body(s, i + 1) {
            None => None,
            Some((key, k)) => {
                if k <= i || k > s.len() {
                    None
                } else {
                    let c1 = ws_end(s, k);
                    if c1 < k || c1 >= s.len() || s[c1] != ':' {
                        None
                    } else {
                        let j2 = ws_end(s, c1 + 1);
                        if j2 <= i || j2 > s.len() {
                            None
                        } else {
                            match sp_value(s, j2, depth) {
                                None => None,
                                Some((v, k3)) => {
                                    if k3 <= j2 || k3 > s.len() {
                                        None
                                    } else {
                                        let k4 = ws_end(s, k3);
                                        if k4 < k3 || k4 > s.len() {
                                            None
                                        } else if k4 < s.len() && s[k4] == ',' {
                                            let j5 = ws_end(s, k4 + 1);
                                            if j5 <= i || j5 > s.len() {
                                                None
                                            } else {
                                                match sp_members(s, j5, depth) {
                                                    Some((rest, m)) => Some(
                                                        (seq![(key, v)] + rest, m),
                                                    ),
                                                    None => None,
                                                }
                                            }
                                        } else if k4 < s.len() && s[k4] == '}' {
                                            Some((seq![(key, v)], k4 + 1))
                                        } else {
                                            None
                                        }
                                    }
                                },
                            }
                        }
                    }
                }
            },
        }
    }
}

/// The document a body of text parses to: `None` where it is not a
/// single well-formed JSON value, or where it nests arrays and objects
/// more than 128 levels deep, the same bound the ecosystem's usual
/// parser enforces.
pub open spec fn sp_parse(s: Seq<char>) -> Option<JsonSpec> {
    let i = ws_end(s, 0);
    match sp_value(s, i, 128) {
        Some((v, j)) => {
            if ws_end(s, j) == s.len() {
                Some(v)
            } else {
                None
            }
        },
        None => None,
    }
}

fn ex_value(v: &Vec<char>, i: usize, depth: usize) -> (r: Option<(JsonValue, usize)>)
    requires
        i <= v@.len(),
    ensures
        match r {
            None => sp_value(v@, i as int, depth as int) is None,
            Some((jv, j)) => {
                &&& sp_value(v@, i as int, depth as int) == Some((jv_view(jv), j as int))
                &&& i < j <= v@.len()
            },
        },
    decreases v@.len() - i, 2int,
{
    if i >= v.len() {
        return None;
    }
    let c = v[i];
    if c == 'n' {
        if v.len() - i >= 4 && v[i + 1] == 'u' && v[i + 2] == 'l' && v[i + 3] == 'l' {
            Some((JsonValue::Null, i + 4))
        } else {
            None
        }
    } else if c == 't' {
        if v.len() - i >= 4 && v[i + 1] == 'r' && v[i + 2] == 'u' && v[i + 3] == 'e' {
            Some((JsonValue::Bool(true), i + 4))
        } else {
            None
        }
    } else if c == 'f' {
        if v.len() - i >= 5 && v[i + 1] == 'a' && v[i + 2] == 'l' && v[i + 3] == 's' && v[i + 4]
            == 'e' {
            Some((JsonValue::Bool(false), i + 5))
        } else {
            None
        }
    } else if c == '"' {
        match ex_string_body(v, i + 1) {
            Some((st, j)) => Some((JsonValue::Str(st), j)),
            None => None,
        }
    } else if c == '[' {
        if depth == 0 {
            return None;
        }
        let j = ex_ws_end(v, i + 1);
        if j < v.len() && v[j] == ']' {
            Some((JsonValue::Arr(Vec::new()), j + 1))
        } else {
            match ex_elements(v, j, depth - 1) {
                Some((es, k)) => Some((JsonValue::Arr(es), k)),
                None => None,
            }
        }
    } else if c == '{' {
        if depth == 0 {
            return None;
        }
        let j = ex_ws_end(v, i + 1);
        if j < v.len() && v[j] == '}' {
            Some((JsonValue::Obj(Vec::new()), j + 1))
        } else {
            match ex_members(v, j, depth - 1) {
                Some((ms, k)) => Some((JsonValue::Obj(ms), k)),
                None => None,
            }
        }
    } else if c == '-' || ex_is_digit(c) {
        match ex_number_end(v, i) {
            None => None,
            Some(e) => {
                if e < i + 1 {
                    None
                } else {
                    let tok = copy_range(v, i, e);
                    Some((JsonValue::Num(tok), e))
                }
            },
        }
    } else {
        None
    }
}

fn ex_elements(v: &Vec<char>, i: usize, depth: usize) -> (r: Option<(Vec<JsonValue>, usize)>)
    requires
        i <= v@.len(),
    ensures
        match r {
            None => sp_elements(v@, i as int, depth as int) is None,
            Some((es, j)) => {
                &&& sp_elements(v@, i as int, depth as int) == Some(
                    (jv_view_seq(es@), j as int),
                )
                &&& i < j <= v@.len()
            },
        },
    decreases v@.len() - i, 3int,
{
    match ex_value(v, i, depth) {
        None => None,
        Some((first, k)) => {
            let k2 = ex_ws_end(v, k);
            if k2 < v.len() && v[k2] == ',' {
                let j = ex_ws_end(v, k2 + 1);
                match ex_elements(v, j, depth) {
                    Some((rest, m)) => {
                        let ghost rest0 = rest@;
                        let mut out = rest;
                        out.insert(0, first);
                        proof {
                            lemma_view_seq_cons(first, rest0);
                        }
                        assert(out@ =~= seq![first] + rest0);
                        Some((out, m))
                    },
                    None => None,
                }
            } else if k2 < v.len() && v[k2] == ']' {
                let mut out: Vec<JsonValue> = Vec::new();
                out.push(first);
                proof {
                    lemma_view_seq_cons(first, Seq::empty());
                    assert(out@ =~= seq![first] + Seq::<JsonValue>::empty());
                    assert(jv_view_seq(Seq::<JsonValue>::empty()) =~= Seq::<JsonSpec>::empty());
                    assert(jv_view_seq(out@) =~= seq![jv_view(first)]);
                }
                Some((out, k2 + 1))
            } else {
                None
            }
        },
    }
}

fn ex_members(v: &Vec<char>, i: usize, depth: usize) -> (r: Option<
    (Vec<(String, JsonValue)>, usize),
>)
    requires
        i <= v@.len(),
    ensures
        match r {
            None => sp_members(v@, i as int, depth as int) is None,
            Some((ms, j)) => {
                &&& sp_members(v@, i as int, depth as int) == Some(
                    (jv_view_fields(ms@), j as int),
                )
                &&& i < j <= v@.len()
            },
        },
    decreases v@.len() - i, 3int,
{
    if i >= v.len() || v[i] != '"' {
        return None;
    }
    match ex_string_body(v, i + 1) {
        None => None,
        Some((key, k)) => {
            let c1 = ex_ws_end(v, k);
            if c1 >= v.len() || v[c1] != ':' {
                return None;
            }
            let j2 = ex_ws_end(v, c1 + 1);
            match ex_value(v, j2, depth) {
                None => None,
                Some((val, k3)) => {
                    let k4 = ex_ws_end(v, k3);
                    if k4 < v.len() && v[k4] == ',' {
                        let j5 = ex_ws_end(v, k4 + 1);
                        match ex_members(v, j5, depth) {
                            Some((rest, m)) => {
                                let ghost rest0 = rest@;
                                let ghost kv = (key, val);
                                let mut out = rest;
                                out.insert(0, (key, val));
                                proof {
                                    lemma_view_fields_cons(kv, rest0);
                                }
                                assert(out@ =~= seq![kv] + rest0);
                                Some((out, m))
                            },
                            None => None,
                        }
                    } else if k4 < v.len() && v[k4] == '}' {
                        let mut out: Vec<(String, JsonValue)> = Vec::new();
                        out.push((key, val));
                        proof {
                            lemma_view_fields_cons((key, val), Seq::empty());
                            assert(out@ =~= seq![(key, val)]
                                + Seq::<(String, JsonValue)>::empty());
                            assert(jv_view_fields(Seq::<(String, JsonValue)>::empty())
                                =~= Seq::<(Seq<char>, JsonSpec)>::empty());
                            assert(jv_view_fields(out@) =~= seq![(key@, jv_view(val))]);
                        }
                        Some((out, k4 + 1))
                    } else {
                        None
                    }
                },
            }
        },
    }
}

/// A copy of the characters of `v` between `a` and `b`.
fn copy_range(v: &Vec<char>, a: usize, b: usize) -> (r: String)
    requires
        a <= b <= v@.len(),
    ensures
        r@ == v@.subrange(a as int, b as int),
{
    let mut out = String::new();
    let mut i: usize = a;
    while i < b
        invariant
            a <= i <= b <= v@.len(),
            out@ == v@.subrange(a as int, i as int),
        decreases b - i,
    {
        crate::text::push_char(&mut out, v[i]);
        i = i + 1;
        assert(out@ =~= v@.subrange(a as int, i as int));
    }
    assert(out@ =~= v@.subrange(a as int, b as int));
    out
}

/// Parses a body of text as one JSON document, refusing documents
/// nested more than 128 levels deep.
pub fn parse_json(s: &str) -> (r: Option<JsonValue>)
    ensures
        match r {
            None => sp_parse(s@) is None,
            Some(jv) => sp_parse(s@) == Some(jv_view(jv)),
        },
{
    let v = crate::text::chars_of(s);
    let i = ex_ws_end(&v, 0);
    match ex_value(&v, i, 128) {
        Some((jv, j)) => {
            let e = ex_ws_end(&v, j);
            if e == v.len() {
                Some(jv)
            } else {
                None
            }
        },
        None => None,
    }
}

// ----------------------------------------------------------------------
// Writing JSON string literals
// ----------------------------------------------------------------------

/// A lowercase hexadecimal digit.
pub open spec fn hex_digit(n: int) -> char {
    if n < 10 {
        ((48 + n) as u8) as char
    } else {
        ((87 + n) as u8) as char
    }
}

/// The escape a character gets inside a JSON string literal.
pub open spec fn esc_char(c: char) -> Seq<char> {
    if c == '"' {
        seq!['\\', '"']
    } else if c == '\\' {
        seq!['\\', '\\']
    } else if c as u32 == 8 {
        seq!['\\', 'b']
    } else if c as u32 == 12 {
        seq!['\\', 'f']
    } else if c as u32 == 10 {
        seq!['\\', 'n']
    } else if c as u32 == 13 {
        seq!['\\', 'r']
    } else if c as u32 == 9 {
        seq!['\\', 't']
    } else if (c as u32) < 32 {
        seq!['\\', 'u', '0', '0', hex_digit((c as u32 / 16) as int), hex_digit((c as u32 % 16) as int)]
    } else {
        seq![c]
    }
}

/// The escaped form of a whole string.
pub open spec fn esc(s: Seq<char>) -> Seq<char>
    decreases s.len(),
{
    if s.len() == 0 {
        Seq::empty()
    } else {
        esc_char(s[0]) + esc(s.drop_first())
    }
}

/// The JSON string literal denoting `s`.
pub open spec fn sp_quote(s: Seq<char>) -> Seq<char> {
    seq!['"'] + esc(s) + seq!['"']
}

pub proof fn lemma_esc_snoc(s: Seq<char>, c: char)
    ensures
        esc(s.push(c)) == esc(s) + esc_char(c),
    decreases s.len(),
{
    if s.len() == 0 {
        assert(s.push(c).len() == 1);
        assert(s.push(c)[0] == c);
        assert(s.push(c).drop_first() =~= Seq::<char>::empty());
        assert(esc(s.push(c)) == esc_char(c) + esc(s.push(c).drop_first()));
        assert(esc(s.push(c).drop_first()) == Seq::<char>::empty());
        assert(esc_char(c) + Seq::<char>::empty() =~= esc_char(c));
        assert(s =~= Seq::<char>::empty());
        assert(esc(s) == Seq::<char>::empty());
        assert(esc(s) + esc_char(c) =~= esc_char(c));
    } else {
        assert(s.push(c)[0] == s[0]);
        assert(s.push(c).drop_first() =~= s.drop_first().push(c));
        lemma_esc_snoc(s.drop_first(), c);
        assert(esc(s.push(c)) == esc_char(s[0]) + (esc(s.drop_first()) + esc_char(c)));
        assert(esc_char(s[0]) + (esc(s.drop_first()) + esc_char(c)) =~= (esc_char(s[0]) + esc(
            s.drop_first(),
        )) + esc_char(c));
    }
}

/// Appends the JSON string literal denoting `s` to `out`.
pub fn quote_into(out: &mut String, s: &str)
    ensures
        final(out)@ == old(out)@ + sp_quote(s@),
{
    crate::text::push_char(out, '"');
    let cs = crate::text::chars_of(s);
    let mut i: usize = 0;
    while i < cs.len()
        invariant
            cs@ == s@,
            i <= cs@.len(),
            out@ == old(out)@ + seq!['"'] + esc(s@.subrange(0, i as int)),
        decreases cs@.len() - i,
    {
        let c = cs[i];
        let n = c as u32;
        let ghost pre = out@;
        if c == '"' {
            crate::text::push_char(out, '\\');
            crate::text::push_char(out, '"');
        } else if c == '\\' {
            crate::text::push_char(out, '\\');
            crate::text::push_char(out, '\\');
        } else if n == 8 {
            crate::text::push_char(out, '\\');
            crate::text::push_char(out, 'b');
        } else if n == 12 {
            crate::text::push_char(out, '\\');
            crate::text::push_char(out, 'f');
        } else if n == 10 {
            crate::text::push_char(out, '\\');
            crate::text::push_char(out, 'n');
        } else if n == 13 {
            crate::text::push_char(out, '\\');
            crate::text::push_char(out, 'r');
        } else if n == 9 {
            crate::text::push_char(out, '\\');
            crate::text::push_char(out, 't');
        } else if n < 32 {
            crate::text::push_char(out, '\\');
            crate::text::push_char(out, 'u');
            crate::text::push_char(out, '0');
            crate::text::push_char(out, '0');
            let d1 = (n / 16) as u8;
            let d2 = (n % 16) as u8;
            let c1 = if d1 < 10 {
                (48 + d1) as char
            } else {
                (87 + d1) as char
            };
            let c2 = if d2 < 10 {
                (48 + d2) as char
            } else {
                (87 + d2) as char
            };
            assert(c1 == hex_digit((c as u32 / 16) as int));
            assert(c2 == hex_digit((c as u32 % 16) as int));
            crate::text::push_char(out, c1);
            crate::text::push_char(out, c2);
        } else {
            crate::text::push_char(out, c);
        }
        assert(out@ =~= pre + esc_char(c));
        proof {
            lemma_esc_snoc(s@.subrange(0, i as int), c);
            assert(s@.subrange(0, i as int).push(c) =~= s@.subrange(0, i + 1 as int));
        }
        i = i + 1;
        assert(out@ =~= old(out)@ + seq!['"'] + esc(s@.subrange(0, i as int)));
    }
    crate::text::push_char(out, '"');
    proof {
        assert(s@.subrange(0, s@.len() as int) =~= s@);
        assert(out@ =~= old(out)@ + sp_quote(s@));
    }
}

fn ex_str_cons(c: char, v: &Vec<char>, j: usize) -> (r: Option<(String, usize)>)
    requires
        0 < j <= v@.len(),
    ensures
        match r {
            None => sp_str_cons(c, v@, j as int) is None,
            Some((st, k)) => {
                &&& sp_str_cons(c, v@, j as int) == Some((st@, k as int))
                &&& j <= k <= v@.len()
            },
        },
    decreases v@.len() - j, 1int,
{
    match ex_string_body(v, j) {
        Some((rest, k)) => {
            let mut out = String::new();
            crate::text::push_char(&mut out, c);
            out.append(rest.as_str());
            assert(out@ =~= seq![c] + rest@);
            Some((out, k))
        },
        None => None,
    }
}

} // verus!

verus! {

proof fn lemma_char_code_round(c: char)
    requires
        (c as u32) < 0xD800,
    ensures
        ((c as u32) as int) as char == c,
{
}

proof fn lemma_hex_digit_val(m: int)
    requires
        0 <= m < 16,
    ensures
        is_hex(hex_digit(m)),
        hex_val(hex_digit(m)) == m,
{
}

#[verifier::rlimit(60)]
proof fn lemma_string_body_of_esc(q: Seq<char>, i: int, s: Seq<char>)
    requires
        0 <= i <= q.len(),
        q.subrange(i, q.len() as int) == esc(s).push('"'),
    ensures
        sp_string_body(q, i) == Some((s, q.len() as int)),
    decreases s.len(),
{
    let tail = q.subrange(i, q.len() as int);
    assert(tail.len() == esc(s).len() + 1);
    if s.len() == 0 {
        assert(esc(s) =~= Seq::<char>::empty());
        assert(s =~= Seq::<char>::empty());
        assert(q[i] == tail[0]);
        assert(q[i] == '"');
        assert(i + 1 == q.len());
        assert(sp_string_body(q, i) == Some((Seq::<char>::empty(), i + 1)));
    } else {
        let c = s[0];
        let e = esc_char(c);
        assert(esc(s) == e + esc(s.drop_first()));
        assert(e.len() >= 1);
        assert forall|k: int| 0 <= k < e.len() implies q[i + k] == e[k] by {
            assert(tail[k] == (esc(s).push('"'))[k]);
            assert((esc(s).push('"'))[k] == esc(s)[k]);
            assert(esc(s)[k] == e[k]);
        }
        let j = i + e.len();
        assert(q.subrange(j, q.len() as int) =~= esc(s.drop_first()).push('"')) by {
            let rest = esc(s.drop_first()).push('"');
            assert forall|k: int| 0 <= k < q.len() - j implies q.subrange(
                j,
                q.len() as int,
            )[k] == rest[k] by {
                assert(q[j + k] == tail[e.len() + k]);
                assert(tail[e.len() + k] == (esc(s).push('"'))[e.len() + k]);
            }
        }
        lemma_string_body_of_esc(q, j, s.drop_first());
        assert(seq![c] + s.drop_first() =~= s);
        assert(j > 0);
        let n = c as u32;
        if c == '"' {
            assert(q[i] == '\\' && q[i + 1] == '"');
            assert(sp_string_body(q, i) == sp_str_cons(c, q, j));
        } else if c == '\\' {
            assert(q[i] == '\\' && q[i + 1] == '\\');
            assert(sp_string_body(q, i) == sp_str_cons(c, q, j));
        } else if n == 8 || n == 12 || n == 10 || n == 13 || n == 9 {
            assert(q[i] == '\\');
            lemma_char_code_round(c);
            assert(sp_string_body(q, i) == sp_str_cons(c, q, j));
        } else if n < 32 {
            assert(q[i] == '\\' && q[i + 1] == 'u' && q[i + 2] == '0' && q[i + 3] == '0');
            assert(q[i + 4] == hex_digit(n as int / 16) && q[i + 5] == hex_digit(n as int % 16));
            lemma_hex_digit_val(n as int / 16);
            lemma_hex_digit_val(n as int % 16);
            assert(hex4_ok(q, i + 2)) by {
                assert(hex_val('0') == 0);
            }
            assert(hex4(q, i + 2) == (n as int / 16) * 16 + (n as int % 16)) by {
                assert(hex_val('0') == 0);
            }
            assert((n as int / 16) * 16 + (n as int % 16) == n as int);
            assert(hex4(q, i + 2) == n as int);
            assert(!(0xD800 <= n as int <= 0xDBFF) && !(0xDC00 <= n as int <= 0xDFFF));
            lemma_char_code_round(c);
            assert((hex4(q, i + 2)) as char == c);
            assert(sp_string_body(q, i) == sp_str_cons(c, q, j));
        } else {
            assert(e == seq![c]);
            assert(q[i] == c);
            assert(c != '"' && c != '\\' && !((c as u32) < 0x20));
            assert(sp_string_body(q, i) == sp_str_cons(c, q, j));
        }
        assert(sp_str_cons(c, q, j) == Some((seq![c] + s.drop_first(), q.len() as int)));
        assert(sp_string_body(q, i) == Some((s, q.len() as int)));
    }
}

/// What the writer emits for a string, the reader takes back: the JSON
/// literal of any string, as `quote_into` writes it, parses to exactly
/// that string.
pub proof fn lemma_quote_round_trip(s: Seq<char>)
    ensures
        sp_parse(sp_quote(s)) == Some(JsonSpec::Str(s)),
{
    let q = sp_quote(s);
    assert(q[0] == '"');
    assert(!is_json_ws(q[0]));
    assert(ws_end(q, 0) == 0);
    assert(q.subrange(1, q.len() as int) =~= esc(s).push('"'));
    lemma_string_body_of_esc(q, 1, s);
    assert(sp_value(q, 0, 128) == Some((JsonSpec::Str(s), q.len() as int)));
    assert(ws_end(q, q.len() as int) == q.len());
}

} // verus!
