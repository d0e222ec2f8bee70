//! Classification of outbound messages by their destination address, and the
//! replies to calls of local capabilities.
use vstd::prelude::*;
use crate::input::{all_digits, decimal_value, is_digit, lemma_decimal_append_grows, lemma_decimal_push};

verus! {

/// Workchain of the addresses that name a local capability rather than a bot.
pub const DEBOT_WC: i8 = -31;

/// Index of the first `:` in `s` at or after `i`, or `s.len()` if none.
pub open spec fn colon_from(s: Seq<char>, i: int) -> int
    decreases s.len() - i,
{
    if i >= s.len() {
        s.len() as int
    } else if s[i] == ':' {
        i
    } else {
        colon_from(s, i + 1)
    }
}

/// The value of `w` read as a decimal numeral that fits in `i8`: an optional
/// `+` or `-`, then one digit or more.
pub open spec fn decimal_i8(w: Seq<char>) -> Option<int> {
    if w.len() > 0 && w[0] == '-' {
        let d = w.drop_first();
        if d.len() > 0 && all_digits(d) && decimal_value(d) <= 128 {
            Some(-(decimal_value(d) as int))
        } else {
            None
        }
    } else {
        let d = if w.len() > 0 && w[0] == '+' { w.drop_first() } else { w };
        if d.len() > 0 && all_digits(d) && decimal_value(d) <= 127 {
            Some(decimal_value(d) as int)
        } else {
            None
        }
    }
}

/// Why a destination address cannot be routed.
#[derive(PartialEq, Eq, Structural, Clone, Copy, Debug)]
pub enum RoutingError {
    /// The address has no `:` between workchain and account.
    NoSeparator,
    /// The workchain is not a decimal number in the range of `i8`.
    BadWorkchain,
}

impl RoutingError {
    /// A message for the operator.
    pub fn message(&self) -> (r: String)
        ensures
            *self == RoutingError::NoSeparator ==> r@ == "destination address has no workchain"@,
            *self == RoutingError::BadWorkchain ==> r@
                == "invalid workchain in destination address"@,
    {
        match self {
            RoutingError::NoSeparator => String::from_str("destination address has no workchain"),
            RoutingError::BadWorkchain => String::from_str("invalid workchain in destination address"),
        }
    }
}

/// Where a message goes.
pub enum Route {
    /// A call of the local capability `id`, made by the bot at `debot`.
    Interface { id: String, debot: String },
    /// A message to the bot at `addr`.
    Debot { addr: String },
}

/// The abstract meaning of a route.
pub ghost enum RouteSpec {
    Interface { id: Seq<char>, debot: Seq<char> },
    Debot { addr: Seq<char> },
}

impl Route {
    pub open spec fn view(&self) -> RouteSpec {
        match self {
            Route::Interface { id, debot } => RouteSpec::Interface { id: id@, debot: debot@ },
            Route::Debot { addr } => RouteSpec::Debot { addr: addr@ },
        }
    }
}

/// Where a message from `src` to `dst` goes. The destination is
/// `<workchain>:<account>`; a workchain equal to `DEBOT_WC` names the local
/// capability `<account>`, any other the bot at `dst`.
pub open spec fn route_of(dst: Seq<char>, src: Seq<char>) -> Result<RouteSpec, RoutingError> {
    let p = colon_from(dst, 0);
    if p == dst.len() {
        Err(RoutingError::NoSeparator)
    } else {
        match decimal_i8(dst.subrange(0, p)) {
            None => Err(RoutingError::BadWorkchain),
            Some(wc) => if wc == DEBOT_WC as int {
                Ok(RouteSpec::Interface { id: dst.subrange(p + 1, colon_from(dst, p + 1)), debot: src })
            } else {
                Ok(RouteSpec::Debot { addr: dst })
            },
        }
    }
}

/// The index of the first `:` in `s` at or after `from`, or its length.
fn find_colon(s: &str, from: usize, len: usize) -> (r: usize)
    requires
        len == s@.len(),
        from <= len,
    ensures
        r == colon_from(s@, from as int),
        from <= r <= len,
{
    let mut i = from;
    while i < len && s.get_char(i) != ':'
        invariant
            from <= i <= len,
            len == s@.len(),
            colon_from(s@, from as int) == colon_from(s@, i as int),
        decreases len - i,
    {
        i = i + 1;
    }
    i
}

/// The value of the digits `s[from..to]`, if they are one digit or more and
/// their value is at most `cap`.
fn digits_up_to(s: &str, from: usize, to: usize, cap: u32) -> (r: Option<u32>)
    requires
        from <= to <= s@.len(),
        cap <= 1000,
    ensures
        ({
            let d = s@.subrange(from as int, to as int);
            r == (if d.len() > 0 && all_digits(d) && decimal_value(d) <= cap {
                Some(decimal_value(d) as u32)
            } else {
                None
            })
        }),
{
    let ghost whole = s@.subrange(from as int, to as int);
    if from == to {
        return None;
    }
    let mut i = from;
    let mut value: u32 = 0;
    let mut over = false;
    while i < to
        invariant
            from <= i <= to <= s@.len(),
            whole == s@.subrange(from as int, to as int),
            cap <= 1000,
            all_digits(s@.subrange(from as int, i as int)),
            !over ==> value == decimal_value(s@.subrange(from as int, i as int)) && value <= cap,
            over ==> decimal_value(s@.subrange(from as int, i as int)) > cap,
        decreases to - i,
    {
        let c = s.get_char(i);
        let ghost pre = s@.subrange(from as int, i as int);
        proof {
            assert(s@.subrange(from as int, i as int + 1) =~= pre.push(c));
            lemma_decimal_push(pre, c);
        }
        if !('0' <= c && c <= '9') {
            proof {
                assert(!is_digit(whole[i - from]));
            }
            return None;
        }
        if over {
            proof {
                lemma_decimal_append_grows(pre, seq![c]);
            }
        } else {
            value = value * 10 + ((c as u32) - ('0' as u32));
            if value > cap {
                over = true;
            }
        }
        i = i + 1;
    }
    proof {
        assert(s@.subrange(from as int, i as int) =~= whole);
    }
    if over {
        None
    } else {
        Some(value)
    }
}

/// The workchain `w` of an address, read as `i8::from_str_radix(w, 10)`
/// reads it.
fn parse_workchain(s: &str, to: usize) -> (r: Option<i8>)
    requires
        to <= s@.len(),
    ensures
        match decimal_i8(s@.subrange(0, to as int)) {
            Some(v) => r == Some(v as i8),
            None => r.is_none(),
        },
{
    let ghost w = s@.subrange(0, to as int);
    if to > 0 && s.get_char(0) == '-' {
        assert(w.drop_first() =~= s@.subrange(1, to as int));
        match digits_up_to(s, 1, to, 128) {
            Some(v) => Some((0 - (v as i32)) as i8),
            None => None,
        }
    } else if to > 0 && s.get_char(0) == '+' {
        assert(w.drop_first() =~= s@.subrange(1, to as int));
        match digits_up_to(s, 1, to, 127) {
            Some(v) => Some(v as i8),
            None => None,
        }
    } else {
        match digits_up_to(s, 0, to, 127) {
            Some(v) => Some(v as i8),
            None => None,
        }
    }
}

/// Where the message from `src` to `dst` goes.
pub fn classify(dst: &str, src: &str) -> (r: Result<Route, RoutingError>)
    ensures
        match r {
            Ok(route) => route_of(dst@, src@) == Ok::<RouteSpec, RoutingError>(route@),
            Err(e) => route_of(dst@, src@) == Err::<RouteSpec, RoutingError>(e),
        },
{
    let len = dst.unicode_len();
    let p = find_colon(dst, 0, len);
    if p == len {
        return Err(RoutingError::NoSeparator);
    }
    match parse_workchain(dst, p) {
        None => Err(RoutingError::BadWorkchain),
        Some(wc) => {
            if wc == DEBOT_WC {
                let q = find_colon(dst, p + 1, len);
                let id = String::from_str(dst.substring_char(p + 1, q));
                Ok(Route::Interface { id, debot: String::from_str(src) })
            } else {
                Ok(Route::Debot { addr: String::from_str(dst) })
            }
        },
    }
}

/// The lowercase hexadecimal digit of `d`, for `d < 16`.
pub open spec fn hex_digit(d: nat) -> char {
    if d < 10 {
        (('0' as u32) + d) as char
    } else {
        (('a' as u32) + (d - 10)) as char
    }
}

/// `n` in lowercase hexadecimal, without leading zeros.
pub open spec fn hex_of(n: nat) -> Seq<char>
    decreases n,
{
    if n < 16 {
        seq![hex_digit(n)]
    } else {
        hex_of(n / 16).push(hex_digit(n % 16))
    }
}

/// `n` in lowercase hexadecimal, without leading zeros.
pub fn hex_text(n: u32) -> (r: String)
    ensures
        r@ == hex_of(n as nat),
    decreases n,
{
    let digits = "0123456789abcdef";
    proof {
        reveal_strlit("0123456789abcdef");
    }
    let d = (n % 16) as usize;
    let digit = digits.substring_char(d, d + 1);
    proof {
        assert(digit@ =~= seq![digits@[d as int]]);
        assert(digits@[d as int] == hex_digit(d as nat)) by {
            assert(digits@ == seq!['0', '1', '2', '3', '4', '5', '6', '7', '8', '9', 'a', 'b', 'c', 'd', 'e', 'f']);
        }
    }
    if n < 16 {
        String::from_str(digit)
    } else {
        let mut s = hex_text(n / 16);
        s.append(digit);
        s
    }
}

/// The function named in the reply to a capability call: none for the id 0,
/// which marks a call that returns nothing; else the id in hexadecimal.
pub fn reply_function(func_id: u32) -> (r: Option<String>)
    ensures
        func_id == 0 ==> r.is_none(),
        func_id != 0 ==> r.is_some() && r.unwrap()@ == seq!['0', 'x'] + hex_of(func_id as nat),
{
    if func_id == 0 {
        None
    } else {
        let prefix = String::from_str("0x");
        proof {
            reveal_strlit("0x");
            assert(prefix@ =~= seq!['0', 'x']);
        }
        Some(prefix.concat(hex_text(func_id).as_str()))
    }
}

/// What a reply to a capability call holds: the function to call back, if
/// any, and the values it returns.
pub struct Reply<V> {
    pub function: Option<String>,
    pub output: V,
}

/// What to do with the outcome of a capability call: `None` from the
/// registry (not one of its capabilities) gives `Ok(None)`, and the message is
/// dropped; an error is passed on; a result becomes the reply to send back.
pub fn interface_reply<V>(outcome: Option<Result<(u32, V), String>>) -> (r: Result<
    Option<Reply<V>>,
    String,
>)
    ensures
        match outcome {
            None => r == Ok::<Option<Reply<V>>, String>(None),
            Some(Err(e)) => r == Err::<Option<Reply<V>>, String>(e),
            Some(Ok((f, v))) => match r {
                Ok(Some(reply)) => reply.output == v && (f == 0 ==> reply.function.is_none()) && (
                f != 0 ==> reply.function.is_some() && reply.function.unwrap()@ == seq!['0', 'x']
                    + hex_of(f as nat)),
                _ => false,
            },
        },
{
    match outcome {
        None => Ok(None),
        Some(Err(e)) => Err(e),
        Some(Ok((f, v))) => Ok(Some(Reply { function: reply_function(f), output: v })),
    }
}

} // verus!
