//! The native-symbol escaping transform: the deterministic rewrite of a
//! class/method binding into the symbol name the foreign runtime searches for
//! when it resolves a native method implementation.
use vstd::prelude::*;
use vstd::string::StrSliceExecFns;
use vstd::string::StringExecFns;

verus! {

/// Whether a character is in one of Unicode's number categories. The answer
/// depends on the character alone; the categories themselves are the Unicode
/// tables'.
pub uninterp spec fn numeric_char(c: char) -> bool;

/// Relies on char::is_numeric: whether the character is in one of Unicode's
/// number categories (decimal digit, letterlike number, other number). Within
/// ASCII those categories hold exactly the ten digits.
#[verifier::external_body]
fn char_is_numeric(c: char) -> (r: bool)
    ensures
        r == numeric_char(c),
        (c as u32) < 128 ==> (r == ('0' as u32 <= c as u32 && c as u32 <= '9' as u32)),
{
    c.is_numeric()
}

/// Whether a character is an ASCII letter or digit.
pub open spec fn spec_is_ascii_alnum(c: char) -> bool {
    ('0' as u32 <= c as u32 && c as u32 <= '9' as u32) || ('a' as u32 <= c as u32 && c as u32
        <= 'z' as u32) || ('A' as u32 <= c as u32 && c as u32 <= 'Z' as u32)
}

fn is_ascii_alnum(c: char) -> (r: bool)
    ensures
        r == spec_is_ascii_alnum(c),
{
    let u = c as u32;
    ('0' as u32 <= u && u <= '9' as u32) || ('a' as u32 <= u && u <= 'z' as u32) || ('A' as u32 <= u
        && u <= 'Z' as u32)
}

/// The lowercase hexadecimal digit of a value below sixteen.
pub open spec fn spec_hex_digit(d: u32) -> char {
    if d == 0 {
        '0'
    } else if d == 1 {
        '1'
    } else if d == 2 {
        '2'
    } else if d == 3 {
        '3'
    } else if d == 4 {
        '4'
    } else if d == 5 {
        '5'
    } else if d == 6 {
        '6'
    } else if d == 7 {
        '7'
    } else if d == 8 {
        '8'
    } else if d == 9 {
        '9'
    } else if d == 10 {
        'a'
    } else if d == 11 {
        'b'
    } else if d == 12 {
        'c'
    } else if d == 13 {
        'd'
    } else if d == 14 {
        'e'
    } else {
        'f'
    }
}

fn hex_digit(d: u32) -> (r: char)
    requires
        d < 16,
    ensures
        r == spec_hex_digit(d),
{
    if d == 0 {
        '0'
    } else if d == 1 {
        '1'
    } else if d == 2 {
        '2'
    } else if d == 3 {
        '3'
    } else if d == 4 {
        '4'
    } else if d == 5 {
        '5'
    } else if d == 6 {
        '6'
    } else if d == 7 {
        '7'
    } else if d == 8 {
        '8'
    } else if d == 9 {
        '9'
    } else if d == 10 {
        'a'
    } else if d == 11 {
        'b'
    } else if d == 12 {
        'c'
    } else if d == 13 {
        'd'
    } else if d == 14 {
        'e'
    } else {
        'f'
    }
}

/// The low sixteen bits of a character's code point: what survives of it in
/// the four-digit escape.
pub open spec fn spec_low16(c: char) -> u32 {
    (c as u32) & 0xFFFF
}

/// Four lowercase hexadecimal digits of a sixteen-bit value, highest first.
pub open spec fn spec_hex4(x: u32) -> Seq<char> {
    seq![
        spec_hex_digit((x >> 12) & 0xF),
        spec_hex_digit((x >> 8) & 0xF),
        spec_hex_digit((x >> 4) & 0xF),
        spec_hex_digit(x & 0xF),
    ]
}

/// The escape of one character, given whether the character before it was a
/// name separator. Separators and the three reserved punctuation marks get
/// fixed escapes; a Unicode-numeric character right after a separator makes
/// the whole name unescapable (its escape would be read back as part of the
/// separator); ASCII letters and digits pass through; everything else becomes
/// a four-digit escape of its low sixteen code-point bits.
pub open spec fn spec_escape_char(c: char, after_slash: bool) -> Option<Seq<char>> {
    if c == '/' {
        Some(seq!['_'])
    } else if c == '_' {
        Some(seq!['_', '1'])
    } else if c == ';' {
        Some(seq!['_', '2'])
    } else if c == '[' {
        Some(seq!['_', '3'])
    } else if numeric_char(c) && after_slash {
        None
    } else if spec_is_ascii_alnum(c) {
        Some(seq![c])
    } else {
        Some(seq!['_', '0'] + spec_hex4(spec_low16(c)))
    }
}

/// The escape of a name from position `i` on, given whether the character
/// before position `i` was a name separator: the concatenation of the
/// characters' escapes, or nothing when any of them is unescapable in its
/// position.
pub open spec fn spec_escape_from(s: Seq<char>, i: int, after_slash: bool) -> Option<Seq<char>>
    decreases s.len() - i,
{
    if i < 0 || i >= s.len() {
        Some(Seq::empty())
    } else {
        match spec_escape_char(s[i], after_slash) {
            None => None,
            Some(piece) => match spec_escape_from(s, i + 1, s[i] == '/') {
                None => None,
                Some(rest) => Some(piece + rest),
            },
        }
    }
}

/// The escape of a whole name.
pub open spec fn spec_escape(s: Seq<char>) -> Option<Seq<char>> {
    spec_escape_from(s, 0, false)
}

/// A sequence glued in front of a possibly failed escape.
pub open spec fn spec_prepend(prefix: Seq<char>, rest: Option<Seq<char>>) -> Option<Seq<char>> {
    match rest {
        None => None,
        Some(r) => Some(prefix + r),
    }
}

proof fn lemma_escape_step(
    s: Seq<char>,
    i: int,
    after_slash: bool,
    done: Seq<char>,
    piece: Seq<char>,
    next_after: bool,
)
    requires
        0 <= i < s.len(),
        spec_escape_char(s[i], after_slash) == Some(piece),
        next_after == (s[i] == '/'),
    ensures
        spec_prepend(done, spec_escape_from(s, i, after_slash)) == spec_prepend(
            done + piece,
            spec_escape_from(s, i + 1, next_after),
        ),
{
    match spec_escape_from(s, i + 1, next_after) {
        None => {},
        Some(rest) => {
            assert(done + (piece + rest) =~= (done + piece) + rest);
        },
    }
}

/// Escapes one name component. Fails exactly where the transform is
/// undefined: on a Unicode-numeric character right after a name separator.
fn escape(s: &str) -> (r: Option<String>)
    ensures
        match r {
            Some(out) => spec_escape(s@) == Some(out@),
            None => spec_escape(s@) is None,
        },
{
    let n = s.unicode_len();
    let mut out = String::new();
    let mut after_slash = false;
    let mut i: usize = 0;
    proof {
        assert(Seq::<char>::empty() + spec_escape_from(s@, 0, false)->Some_0 =~= spec_escape_from(
            s@,
            0,
            false,
        )->Some_0);
    }
    while i < n
        invariant
            0 <= i <= n,
            n == s@.len(),
            spec_escape(s@) == spec_prepend(out@, spec_escape_from(s@, i as int, after_slash)),
        decreases n - i,
    {
        let c = s.get_char(i);
        let numeric = char_is_numeric(c);
        let ghost done: Seq<char> = out@;
        let ghost pos: int = i as int;
        if c == '/' {
            out.push('_');
            proof {
                assert(out@ =~= done + seq!['_']);
                lemma_escape_step(s@, pos, after_slash, done, seq!['_'], true);
            }
            after_slash = true;
        } else if c == '_' {
            out.push('_');
            out.push('1');
            proof {
                assert(out@ =~= done + seq!['_', '1']);
                lemma_escape_step(s@, pos, after_slash, done, seq!['_', '1'], false);
            }
            after_slash = false;
        } else if c == ';' {
            out.push('_');
            out.push('2');
            proof {
                assert(out@ =~= done + seq!['_', '2']);
                lemma_escape_step(s@, pos, after_slash, done, seq!['_', '2'], false);
            }
            after_slash = false;
        } else if c == '[' {
            out.push('_');
            out.push('3');
            proof {
                assert(out@ =~= done + seq!['_', '3']);
                lemma_escape_step(s@, pos, after_slash, done, seq!['_', '3'], false);
            }
            after_slash = false;
        } else if numeric && after_slash {
            proof {
                assert(spec_escape_char(s@[pos], after_slash) is None);
                assert(spec_escape_from(s@, pos, after_slash) is None);
            }
            return None;
        } else if is_ascii_alnum(c) {
            out.push(c);
            proof {
                assert(out@ =~= done + seq![c]);
                lemma_escape_step(s@, pos, after_slash, done, seq![c], false);
            }
            after_slash = false;
        } else {
            let code = (c as u32) & 0xFFFF;
            proof {
                let cu = c as u32;
                assert((cu & 0xFFFF) >> 12 < 16 && ((cu & 0xFFFF) >> 8) & 0xF < 16 && ((cu & 0xFFFF)
                    >> 4) & 0xF < 16 && (cu & 0xFFFF) & 0xF < 16 && ((cu & 0xFFFF) >> 12) & 0xF == (
                cu & 0xFFFF) >> 12) by (bit_vector);
            }
            out.push('_');
            out.push('0');
            out.push(hex_digit((code >> 12) & 0xF));
            out.push(hex_digit((code >> 8) & 0xF));
            out.push(hex_digit((code >> 4) & 0xF));
            out.push(hex_digit(code & 0xF));
            proof {
                let piece = seq!['_', '0'] + spec_hex4(spec_low16(c));
                assert(out@ =~= done + piece);
                assert(!spec_is_ascii_alnum(c) && c != '/' && c != '_' && c != ';' && c != '[');
                assert(!(numeric_char(c) && after_slash));
                assert(spec_escape_char(c, after_slash) == Some(piece));
                lemma_escape_step(s@, pos, after_slash, done, piece, false);
            }
            after_slash = false;
        }
        i += 1;
    }
    Some(out)
}

/// Why a binding could not be turned into a native symbol name: the transform
/// is undefined on one of its parts. Carries the parts as given.
#[derive(Debug, PartialEq, Eq)]
pub struct NativeEscapeError {
    pub class: String,
    pub method: String,
    pub overload_signature: Option<String>,
}

/// The view of an optional borrowed string.
pub open spec fn spec_opt_view(s: Option<&str>) -> Option<Seq<char>> {
    match s {
        Some(x) => Some(x@),
        None => None,
    }
}

/// The native symbol name of a class/method binding: the fixed prefix, the
/// escaped class name, a separator, the escaped method name, and — only for
/// an overloaded method — a double separator and the escaped argument
/// signature. Nothing, where any part is unescapable.
pub open spec fn spec_native_name(
    class: Seq<char>,
    method: Seq<char>,
    overload_signature: Option<Seq<char>>,
) -> Option<Seq<char>> {
    match (spec_escape(class), spec_escape(method)) {
        (Some(c), Some(m)) => match overload_signature {
            None => Some(seq!['J', 'a', 'v', 'a', '_'] + c + seq!['_'] + m),
            Some(s) => match spec_escape(s) {
                Some(o) => Some(
                    seq!['J', 'a', 'v', 'a', '_'] + c + seq!['_'] + m + seq!['_', '_'] + o,
                ),
                None => None,
            },
        },
        _ => None,
    }
}

/// Generates the unmangled symbol name the foreign runtime searches for when
/// resolving a native method implementation. `class` is the class's internal
/// (slash-separated) name; the overload signature is given only for a method
/// whose name is overloaded. Fails exactly where the transform is undefined
/// on one of the parts, carrying the parts as given.
pub fn native_name(class: &str, method: &str, overload_signature: Option<&str>) -> (r: Result<
    String,
    NativeEscapeError,
>)
    ensures
        match r {
            Ok(name) => spec_native_name(class@, method@, spec_opt_view(overload_signature))
                == Some(name@),
            Err(e) => spec_native_name(class@, method@, spec_opt_view(overload_signature)) is None
                && e.class@ == class@ && e.method@ == method@ && (match (
                overload_signature,
                e.overload_signature,
            ) {
                (Some(s), Some(es)) => es@ == s@,
                (None, None) => true,
                _ => false,
            }),
        },
{
    let ec = match escape(class) {
        Some(x) => x,
        None => {
            return Err(escape_error(class, method, overload_signature));
        },
    };
    let em = match escape(method) {
        Some(x) => x,
        None => {
            return Err(escape_error(class, method, overload_signature));
        },
    };
    let eo = match overload_signature {
        Some(sig) => match escape(sig) {
            Some(x) => Some(x),
            None => {
                return Err(escape_error(class, method, overload_signature));
            },
        },
        None => None,
    };
    proof {
        reveal_strlit("Java_");
        reveal_strlit("_");
        reveal_strlit("__");
    }
    let mut name = String::from_str("Java_");
    name.append(ec.as_str());
    name.append("_");
    name.append(em.as_str());
    match eo {
        Some(o) => {
            name.append("__");
            name.append(o.as_str());
            proof {
                assert(name@ =~= seq!['J', 'a', 'v', 'a', '_'] + ec@ + seq!['_'] + em@ + seq![
                    '_',
                    '_',
                ] + o@);
            }
            Ok(name)
        },
        None => {
            proof {
                assert(name@ =~= seq!['J', 'a', 'v', 'a', '_'] + ec@ + seq!['_'] + em@);
            }
            Ok(name)
        },
    }
}

fn escape_error(class: &str, method: &str, overload_signature: Option<&str>) -> (e:
    NativeEscapeError)
    ensures
        e.class@ == class@,
        e.method@ == method@,
        match (overload_signature, e.overload_signature) {
            (Some(s), Some(es)) => es@ == s@,
            (None, None) => true,
            _ => false,
        },
{
    NativeEscapeError {
        class: String::from_str(class),
        method: String::from_str(method),
        overload_signature: match overload_signature {
            Some(s) => Some(String::from_str(s)),
            None => None,
        },
    }
}

} // verus!
