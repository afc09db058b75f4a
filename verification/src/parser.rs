//! Classifies raw message text into a `Command`, with no side effects.
//!
//! The grammar is whitespace-tokenized and keyword matching is by substring,
//! not exact word: a first token `"shopping"` still selects the `shop` family,
//! and `"boughty"` still selects `bought`.

use vstd::prelude::*;

verus! {

/// A parsed, validated user intent. `MarkBought` carries the already
/// decremented, 0-based position; `AddItem` carries the item text verbatim.
pub enum Command {
    NewList,
    MarkBought(i64),
    AddItem(String),
    Help,
    Unrecognized,
}

/// The mathematical model of a `Command`: item text as a character sequence,
/// positions as unbounded integers.
pub enum SpecCommand {
    NewList,
    MarkBought(int),
    AddItem(Seq<char>),
    Help,
    Unrecognized,
}

impl View for Command {
    type V = SpecCommand;

    open spec fn view(&self) -> SpecCommand {
        match self {
            Command::NewList => SpecCommand::NewList,
            Command::MarkBought(n) => SpecCommand::MarkBought(*n as int),
            Command::AddItem(s) => SpecCommand::AddItem(s@),
            Command::Help => SpecCommand::Help,
            Command::Unrecognized => SpecCommand::Unrecognized,
        }
    }
}

/// The Unicode white-space characters, as `str::split_whitespace` sees them:
/// a command line is cut into tokens at maximal runs of these.
pub open spec fn is_space(c: char) -> bool {
    let u = c as u32;
    u == 0x09 || u == 0x0A || u == 0x0B || u == 0x0C || u == 0x0D || u == 0x20 || u == 0x85
        || u == 0xA0 || u == 0x1680 || (0x2000 <= u && u <= 0x200A) || u == 0x2028 || u == 0x2029
        || u == 0x202F || u == 0x205F || u == 0x3000
}

pub fn is_space_char(c: char) -> (r: bool)
    ensures
        r == is_space(c),
{
    let u = c as u32;
    u == 0x09 || u == 0x0A || u == 0x0B || u == 0x0C || u == 0x0D || u == 0x20 || u == 0x85
        || u == 0xA0 || u == 0x1680 || (0x2000 <= u && u <= 0x200A) || u == 0x2028 || u == 0x2029
        || u == 0x202F || u == 0x205F || u == 0x3000
}

/// Index of the first white-space character at or after `i`, or the length.
pub open spec fn find_space(s: Seq<char>, i: int) -> int
    decreases s.len() - i,
{
    if i >= s.len() {
        s.len() as int
    } else if is_space(s[i]) {
        i
    } else {
        find_space(s, i + 1)
    }
}

/// Index of the first non-white-space character at or after `i`, or the length.
pub open spec fn find_nonspace(s: Seq<char>, i: int) -> int
    decreases s.len() - i,
{
    if i >= s.len() {
        s.len() as int
    } else if !is_space(s[i]) {
        i
    } else {
        find_nonspace(s, i + 1)
    }
}

/// The first whitespace-delimited token of the message. A command message
/// starts with `!`, which is not white space, so the token starts at 0.
pub open spec fn token1(s: Seq<char>) -> Seq<char> {
    s.subrange(0, find_space(s, 0))
}

/// Where the second whitespace-delimited token starts, or the length if
/// there is none.
pub open spec fn token2_start(s: Seq<char>) -> int {
    find_nonspace(s, find_space(s, 0))
}

pub open spec fn has_token2(s: Seq<char>) -> bool {
    token2_start(s) < s.len()
}

/// The second whitespace-delimited token of the message.
pub open spec fn token2(s: Seq<char>) -> Seq<char> {
    s.subrange(token2_start(s), find_space(s, token2_start(s)))
}

/// `needle` occurs contiguously somewhere in `hay`.
pub open spec fn contains_seq(hay: Seq<char>, needle: Seq<char>) -> bool {
    exists|i: int|
        0 <= i && i + needle.len() <= hay.len() && #[trigger] hay.subrange(i, i + needle.len())
            == needle
}

pub open spec fn is_digit(c: char) -> bool {
    0x30 <= c as u32 && c as u32 <= 0x39
}

pub open spec fn digit_val(c: char) -> int {
    c as u32 - 0x30
}

pub open spec fn all_digits(s: Seq<char>) -> bool {
    forall|i: int| 0 <= i < s.len() ==> is_digit(#[trigger] s[i])
}

/// Base-10 value of a digit string, most significant digit first.
pub open spec fn digits_val(s: Seq<char>) -> int
    decreases s.len(),
{
    if s.len() == 0 {
        0
    } else {
        10 * digits_val(s.drop_last()) + digit_val(s.last())
    }
}

/// The digit part of a numeral: everything after an optional single sign.
pub open spec fn numeral_body(s: Seq<char>) -> Seq<char> {
    if s.len() > 0 && (s[0] == '+' || s[0] == '-') {
        s.drop_first()
    } else {
        s
    }
}

pub open spec fn numeral_negative(s: Seq<char>) -> bool {
    s.len() > 0 && s[0] == '-'
}

pub open spec fn numeral_value(s: Seq<char>) -> int {
    if numeral_negative(s) {
        -digits_val(numeral_body(s))
    } else {
        digits_val(numeral_body(s))
    }
}

/// What `str::parse::<i32>` accepts: an optional sign, then at least one
/// ASCII digit, with the signed value within the 32-bit range.
pub open spec fn is_i32_numeral(s: Seq<char>) -> bool {
    let b = numeral_body(s);
    b.len() > 0 && all_digits(b) && -0x8000_0000 <= numeral_value(s) <= 0x7FFF_FFFF
}

pub open spec fn spec_parse_i32(s: Seq<char>) -> Option<int> {
    if is_i32_numeral(s) {
        Some(numeral_value(s))
    } else {
        None
    }
}

/// The command grammar over the message's character sequence.
pub open spec fn spec_parse(s: Seq<char>) -> SpecCommand {
    if s.len() > 0 && s[0] == '!' {
        let t1 = token1(s);
        if contains_seq(t1, "shop"@) {
            if has_token2(s) && contains_seq(token2(s), "new"@) {
                SpecCommand::NewList
            } else {
                SpecCommand::Unrecognized
            }
        } else if contains_seq(t1, "bought"@) {
            if has_token2(s) {
                match spec_parse_i32(token2(s)) {
                    Some(v) => SpecCommand::MarkBought(v - 1),
                    None => SpecCommand::Unrecognized,
                }
            } else {
                SpecCommand::Unrecognized
            }
        } else if contains_seq(t1, "help"@) {
            SpecCommand::Help
        } else {
            SpecCommand::Unrecognized
        }
    } else if s.len() > 0 && s[0] == '-' {
        SpecCommand::AddItem(s.subrange(1, s.len() as int))
    } else {
        SpecCommand::Unrecognized
    }
}

/// Only messages that open with `!` or `-` are commands at all; everything
/// else is ignored upstream, without even being parsed.
pub open spec fn spec_should_handle(s: Seq<char>) -> bool {
    s.len() > 0 && (s[0] == '!' || s[0] == '-')
}

pub fn should_handle(msg: &str) -> (r: bool)
    ensures
        r == spec_should_handle(msg@),
{
    let n = msg.unicode_len();
    if n == 0 {
        return false;
    }
    let c0 = msg.get_char(0);
    c0 == '!' || c0 == '-'
}

fn scan_space(s: &str, from: usize, n: usize) -> (r: usize)
    requires
        n == s@.len(),
        from <= n,
    ensures
        r as int == find_space(s@, from as int),
        from <= r <= n,
{
    let mut j: usize = from;
    while j < n
        invariant
            from <= j <= n,
            n == s@.len(),
            find_space(s@, from as int) == find_space(s@, j as int),
        decreases n - j,
    {
        if is_space_char(s.get_char(j)) {
            return j;
        }
        j = j + 1;
    }
    j
}

fn scan_nonspace(s: &str, from: usize, n: usize) -> (r: usize)
    requires
        n == s@.len(),
        from <= n,
    ensures
        r as int == find_nonspace(s@, from as int),
        from <= r <= n,
{
    let mut j: usize = from;
    while j < n
        invariant
            from <= j <= n,
            n == s@.len(),
            find_nonspace(s@, from as int) == find_nonspace(s@, j as int),
        decreases n - j,
    {
        if !is_space_char(s.get_char(j)) {
            return j;
        }
        j = j + 1;
    }
    j
}

fn match_at(hay: &str, hn: usize, i: usize, needle: &str, pn: usize) -> (r: bool)
    requires
        hn == hay@.len(),
        pn == needle@.len(),
        i + pn <= hn,
    ensures
        r == (hay@.subrange(i as int, i as int + pn as int) == needle@),
{
    let mut j: usize = 0;
    while j < pn
        invariant
            j <= pn,
            i + pn <= hn,
            hn == hay@.len(),
            pn == needle@.len(),
            forall|k: int| 0 <= k < j ==> hay@[i + k] == needle@[k],
        decreases pn - j,
    {
        if hay.get_char(i + j) != needle.get_char(j) {
            proof {
                assert(hay@.subrange(i as int, i as int + pn as int)[j as int] == hay@[
                    i + j as int
                ]);
            }
            return false;
        }
        j = j + 1;
    }
    proof {
        assert(hay@.subrange(i as int, i as int + pn as int) =~= needle@);
    }
    true
}

fn contains_str(hay: &str, needle: &str) -> (r: bool)
    ensures
        r == contains_seq(hay@, needle@),
{
    let hn = hay.unicode_len();
    let pn = needle.unicode_len();
    if pn > hn {
        return false;
    }
    if pn == 0 {
        proof {
            assert(contains_seq(hay@, needle@)) by {
                assert(hay@.subrange(0, 0 + needle@.len() as int) =~= needle@);
            }
        }
        return true;
    }
    let mut i: usize = 0;
    while i <= hn - pn
        invariant
            1 <= pn <= hn,
            i <= hn - pn + 1,
            hn == hay@.len(),
            pn == needle@.len(),
            forall|k: int|
                0 <= k < i ==> #[trigger] hay@.subrange(k, k + needle@.len() as int) != needle@,
        decreases hn + 1 - pn - i,
    {
        if match_at(hay, hn, i, needle, pn) {
            return true;
        }
        i = i + 1;
    }
    false
}

proof fn lemma_digits_val_nonneg(s: Seq<char>)
    requires
        all_digits(s),
    ensures
        digits_val(s) >= 0,
    decreases s.len(),
{
    if s.len() > 0 {
        assert(all_digits(s.drop_last()));
        lemma_digits_val_nonneg(s.drop_last());
    }
}

/// Extending a digit string to the right never decreases its value.
proof fn lemma_digits_val_prefix(s: Seq<char>, k: int)
    requires
        all_digits(s),
        0 <= k <= s.len(),
    ensures
        digits_val(s.subrange(0, k)) <= digits_val(s),
    decreases s.len() - k,
{
    if k == s.len() {
        assert(s.subrange(0, k) =~= s);
    } else {
        let p = s.subrange(0, k);
        let q = s.subrange(0, k + 1);
        assert(q.drop_last() =~= p);
        assert(all_digits(p));
        lemma_digits_val_nonneg(p);
        lemma_digits_val_prefix(s, k + 1);
    }
}

fn parse_i32_str(s: &str) -> (r: Option<i32>)
    ensures
        match r {
            Some(v) => spec_parse_i32(s@) == Some(v as int),
            None => spec_parse_i32(s@) is None,
        },
{
    let n = s.unicode_len();
    if n == 0 {
        return None;
    }
    let c0 = s.get_char(0);
    let neg = c0 == '-';
    let start: usize = if neg || c0 == '+' {
        1
    } else {
        0
    };
    proof {
        assert(numeral_body(s@) =~= s@.subrange(start as int, n as int));
    }
    if start == n {
        return None;
    }
    let ghost body = s@.subrange(start as int, n as int);
    let mut i: usize = start;
    let mut acc: i64 = 0;
    while i < n
        invariant
            start <= i <= n,
            n == s@.len(),
            start < n,
            body == s@.subrange(start as int, n as int),
            body == numeral_body(s@),
            neg == numeral_negative(s@),
            all_digits(s@.subrange(start as int, i as int)),
            acc == digits_val(s@.subrange(start as int, i as int)),
            0 <= acc <= 0x8000_0000,
        decreases n - i,
    {
        let c = s.get_char(i);
        let u = c as u32;
        if u < 0x30 || u > 0x39 {
            proof {
                assert(!is_digit(body[i - start]));
            }
            return None;
        }
        let d: i64 = (u - 0x30) as i64;
        proof {
            let p = s@.subrange(start as int, i as int);
            let q = s@.subrange(start as int, i + 1);
            assert(q.drop_last() =~= p);
            assert(q.last() == s@[i as int]);
        }
        acc = acc * 10 + d;
        i = i + 1;
        if acc > 0x8000_0000 {
            proof {
                let p = s@.subrange(start as int, i as int);
                if all_digits(body) {
                    assert(p =~= body.subrange(0, i - start));
                    lemma_digits_val_prefix(body, i - start);
                }
            }
            return None;
        }
    }
    proof {
        assert(body =~= s@.subrange(start as int, n as int));
        assert(all_digits(body));
        assert(acc == digits_val(body));
    }
    if neg {
        Some((-acc) as i32)
    } else if acc == 0x8000_0000 {
        None
    } else {
        Some(acc as i32)
    }
}

/// Classify a raw message into a `Command`; parse failure collapses to
/// `Unrecognized`, never to an error.
pub fn parse(msg: &str) -> (c: Command)
    ensures
        c@ == spec_parse(msg@),
{
    let n = msg.unicode_len();
    if n == 0 {
        return Command::Unrecognized;
    }
    let c0 = msg.get_char(0);
    if c0 == '!' {
        let e1 = scan_space(msg, 0, n);
        let word = msg.substring_char(0, e1);
        if contains_str(word, "shop") {
            let s2 = scan_nonspace(msg, e1, n);
            if s2 == n {
                return Command::Unrecognized;
            }
            let e2 = scan_space(msg, s2, n);
            let sub = msg.substring_char(s2, e2);
            if contains_str(sub, "new") {
                Command::NewList
            } else {
                Command::Unrecognized
            }
        } else if contains_str(word, "bought") {
            let s2 = scan_nonspace(msg, e1, n);
            if s2 == n {
                return Command::Unrecognized;
            }
            let e2 = scan_space(msg, s2, n);
            let sub = msg.substring_char(s2, e2);
            match parse_i32_str(sub) {
                Some(num) => Command::MarkBought(num as i64 - 1),
                None => Command::Unrecognized,
            }
        } else if contains_str(word, "help") {
            Command::Help
        } else {
            Command::Unrecognized
        }
    } else if c0 == '-' {
        let rest = msg.substring_char(1, n);
        Command::AddItem(String::from_str(rest))
    } else {
        Command::Unrecognized
    }
}

} // verus!
