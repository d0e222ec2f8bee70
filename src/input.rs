//! Parsing of the operator's menu choice.
use vstd::prelude::*;

verus! {

/// The characters with Unicode's `White_Space` property, which separate the
/// words of a line.
pub open spec fn is_space(c: char) -> bool {
    let u = c as u32;
    (0x09 <= u <= 0x0D) || u == 0x20 || u == 0x85 || u == 0xA0 || u == 0x1680 || (0x2000 <= u
        <= 0x200A) || u == 0x2028 || u == 0x2029 || u == 0x202F || u == 0x205F || u == 0x3000
}

/// Whether `c` separates words.
pub fn is_space_char(c: char) -> (r: bool)
    ensures
        r == is_space(c),
{
    let u = c as u32;
    (0x09 <= u && u <= 0x0D) || u == 0x20 || u == 0x85 || u == 0xA0 || u == 0x1680 || (0x2000 <= u
        && u <= 0x200A) || u == 0x2028 || u == 0x2029 || u == 0x202F || u == 0x205F || u == 0x3000
}

/// The end of the word that starts at `i`: the index of the next separator
/// at or after `i`, or `s.len()`.
pub open spec fn word_end(s: Seq<char>, i: int) -> int
    decreases s.len() - i,
{
    if i >= s.len() || is_space(s[i]) {
        i
    } else {
        word_end(s, i + 1)
    }
}

/// Whether a word starts at `i`: `s[i]` is no separator, and it is the first
/// character or follows one.
pub open spec fn starts_word(s: Seq<char>, i: int) -> bool {
    0 <= i < s.len() && !is_space(s[i]) && (i == 0 || is_space(s[i - 1]))
}

/// The words of `s` that start at or after `i`, in order.
pub open spec fn words_from(s: Seq<char>, i: int) -> Seq<Seq<char>>
    decreases s.len() - i,
{
    if i < 0 || i >= s.len() {
        seq![]
    } else if starts_word(s, i) {
        seq![s.subrange(i, word_end(s, i))] + words_from(s, i + 1)
    } else {
        words_from(s, i + 1)
    }
}

/// The words of `s`: its longest runs of characters other than separators,
/// in order.
pub open spec fn words(s: Seq<char>) -> Seq<Seq<char>> {
    words_from(s, 0)
}

pub open spec fn is_digit(c: char) -> bool {
    '0' <= c <= '9'
}

pub open spec fn all_digits(w: Seq<char>) -> bool {
    forall|i: int| 0 <= i < w.len() ==> is_digit(#[trigger] w[i])
}

/// The number written by the decimal digits `w`.
pub open spec fn decimal_value(w: Seq<char>) -> nat
    decreases w.len(),
{
    if w.len() == 0 {
        0
    } else {
        decimal_value(w.drop_last()) * 10 + ((w.last() as u32) - ('0' as u32)) as nat
    }
}

/// The digits of a decimal numeral without sign, after an optional `+`.
pub open spec fn unsigned_digits(w: Seq<char>) -> Seq<char> {
    if w.len() > 0 && w[0] == '+' {
        w.drop_first()
    } else {
        w
    }
}

/// The value of `w` read as a decimal numeral that fits in `usize`: an
/// optional `+`, then one digit or more.
pub open spec fn decimal_usize(w: Seq<char>) -> Option<nat> {
    let d = unsigned_digits(w);
    if d.len() > 0 && all_digits(d) && decimal_value(d) <= usize::MAX {
        Some(decimal_value(d))
    } else {
        None
    }
}

/// Why a line does not select an entry of the menu.
#[derive(PartialEq, Eq, Structural, Clone, Copy, Debug)]
pub enum ActionInputError {
    /// The line holds no word yet: read another line.
    NoInput,
    /// The first word is not a decimal number.
    NotANumber,
    /// The number is larger than the menu.
    OutOfRange,
    /// The number is 0, which names no entry: entries count from 1.
    NoSuchAction,
}

impl ActionInputError {
    /// The message shown to the operator before asking again.
    pub fn message(&self) -> (r: String)
        ensures
            *self == ActionInputError::NoInput ==> r@ == "No action entered. Try again, please."@,
            *self == ActionInputError::NotANumber ==> r@
                == "Oops! Invalid action. Try again, please."@,
            *self == ActionInputError::OutOfRange ==> r@
                == "Auch! Invalid action. Try again, please."@,
            *self == ActionInputError::NoSuchAction ==> r@ == "Invalid action. Try again."@,
    {
        match self {
            ActionInputError::NoInput => String::from_str("No action entered. Try again, please."),
            ActionInputError::NotANumber => String::from_str("Oops! Invalid action. Try again, please."),
            ActionInputError::OutOfRange => String::from_str("Auch! Invalid action. Try again, please."),
            ActionInputError::NoSuchAction => String::from_str("Invalid action. Try again."),
        }
    }
}

/// The operator's choice in the line `s`, for a menu of `max` entries: the
/// first word of the line, read as a decimal number from 1 to `max`.
pub open spec fn action_choice(s: Seq<char>, max: nat) -> Result<nat, ActionInputError> {
    let ws = words(s);
    if ws.len() == 0 {
        Err(ActionInputError::NoInput)
    } else {
        match decimal_usize(ws[0]) {
            None => Err(ActionInputError::NotANumber),
            Some(n) => if n > max {
                Err(ActionInputError::OutOfRange)
            } else if n == 0 {
                Err(ActionInputError::NoSuchAction)
            } else {
                Ok(n)
            },
        }
    }
}

/// The texts of a list of strings.
pub open spec fn texts(v: Seq<String>) -> Seq<Seq<char>> {
    v.map_values(|w: String| w@)
}

/// The index of the first separator in `line` at or after `from`.
fn find_word_end(line: &str, from: usize, len: usize) -> (r: usize)
    requires
        len == line@.len(),
        from <= len,
    ensures
        r == word_end(line@, from as int),
        from <= r <= len,
{
    let mut i = from;
    while i < len && !is_space_char(line.get_char(i))
        invariant
            from <= i <= len,
            len == line@.len(),
            word_end(line@, from as int) == word_end(line@, i as int),
        decreases len - i,
    {
        i = i + 1;
    }
    i
}

/// The words of `line`, in order.
pub fn split_words(line: &str) -> (r: Vec<String>)
    ensures
        texts(r@) == words(line@),
{
    let len = line.unicode_len();
    let ghost s = line@;
    let mut out: Vec<String> = Vec::new();
    let mut i: usize = 0;
    while i < len
        invariant
            0 <= i <= len,
            len == s.len(),
            s == line@,
            texts(out@) + words_from(s, i as int) == words(s),
        decreases len - i,
    {
        let c = line.get_char(i);
        let starts = !is_space_char(c) && (i == 0 || is_space_char(line.get_char(i - 1)));
        if starts {
            let e = find_word_end(line, i, len);
            let w = String::from_str(line.substring_char(i, e));
            proof {
                assert(texts(out@.push(w)) =~= texts(out@).push(w@));
                assert(texts(out@).push(w@) + words_from(s, i + 1) =~= texts(out@) + words_from(
                    s,
                    i as int,
                ));
            }
            out.push(w);
        }
        i = i + 1;
    }
    proof {
        assert(texts(out@) + words_from(s, i as int) =~= texts(out@));
    }
    out
}

/// Whether `line` holds a word: a free-text answer is read until it does.
pub fn has_words(line: &str) -> (r: bool)
    ensures
        r == (words(line@).len() > 0),
{
    split_words(line).len() > 0
}

pub(crate) proof fn lemma_decimal_push(w: Seq<char>, c: char)
    ensures
        decimal_value(w.push(c)) == decimal_value(w) * 10 + ((c as u32) - ('0' as u32)) as nat,
{
    assert(w.push(c).drop_last() =~= w);
}

pub(crate) proof fn lemma_decimal_append_grows(w: Seq<char>, rest: Seq<char>)
    ensures
        decimal_value(w + rest) >= decimal_value(w),
    decreases rest.len(),
{
    if rest.len() == 0 {
        assert(w + rest =~= w);
    } else {
        let r0 = rest.drop_last();
        lemma_decimal_append_grows(w, r0);
        assert((w + rest).drop_last() =~= w + r0);
        assert(decimal_value(w + rest) >= decimal_value(w + r0) * 10);
    }
}

/// The word `w` read as a decimal numeral that fits in `usize`, as
/// `usize::from_str_radix(w, 10)` reads it.
pub fn parse_usize(w: &str) -> (r: Option<usize>)
    ensures
        match decimal_usize(w@) {
            Some(n) => r == Some(n as usize),
            None => r.is_none(),
        },
{
    let len = w.unicode_len();
    let ghost s = w@;
    let mut i: usize = 0;
    if len > 0 && w.get_char(0) == '+' {
        i = 1;
    }
    let from = i;
    proof {
        assert(unsigned_digits(s) =~= s.subrange(from as int, len as int));
    }
    if from == len {
        return None;
    }
    let mut value: usize = 0;
    let mut overflow = false;
    while i < len
        invariant
            from <= i <= len,
            len == s.len(),
            s == w@,
            unsigned_digits(s) == s.subrange(from as int, len as int),
            from < len,
            all_digits(s.subrange(from as int, i as int)),
            !overflow ==> value == decimal_value(s.subrange(from as int, i as int)),
            overflow ==> decimal_value(s.subrange(from as int, i as int)) > usize::MAX,
        decreases len - i,
    {
        let c = w.get_char(i);
        let ghost pre = s.subrange(from as int, i as int);
        proof {
            assert(s.subrange(from as int, i + 1) =~= pre.push(c));
            lemma_decimal_push(pre, c);
        }
        if !('0' <= c && c <= '9') {
            proof {
                assert(!is_digit(s.subrange(from as int, len as int)[i - from]));
            }
            return None;
        }
        if overflow {
            proof {
                lemma_decimal_append_grows(pre, seq![c]);
            }
        } else {
            let d = ((c as u32) - ('0' as u32)) as usize;
            match value.checked_mul(10) {
                Some(t) => match t.checked_add(d) {
                    Some(v) => {
                        value = v;
                    },
                    None => {
                        overflow = true;
                    },
                },
                None => {
                    overflow = true;
                },
            }
        }
        i = i + 1;
    }
    if overflow {
        None
    } else {
        Some(value)
    }
}

/// Reads the operator's menu choice from the line `line`, for a menu of `max`
/// entries. The result holds the chosen number, the number of words of the
/// line and the words themselves. A line of separators only is `NoInput`:
/// the caller reads on.
pub fn action_input(line: &str, max: usize) -> (r: Result<(usize, usize, Vec<String>), ActionInputError>)
    ensures
        match r {
            Ok((n, argc, argv)) => {
                &&& action_choice(line@, max as nat) == Ok::<nat, ActionInputError>(n as nat)
                &&& texts(argv@) == words(line@)
                &&& argc == argv@.len()
            },
            Err(e) => action_choice(line@, max as nat) == Err::<nat, ActionInputError>(e),
        },
{
    let argv = split_words(line);
    let argc = argv.len();
    if argc == 0 {
        return Err(ActionInputError::NoInput);
    }
    assert(texts(argv@)[0] == argv@[0]@);
    match parse_usize(argv[0].as_str()) {
        None => Err(ActionInputError::NotANumber),
        Some(n) => {
            if n > max {
                Err(ActionInputError::OutOfRange)
            } else if n == 0 {
                Err(ActionInputError::NoSuchAction)
            } else {
                Ok((n, argc, argv))
            }
        },
    }
}

} // verus!
