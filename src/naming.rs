use vstd::prelude::*;
use std::fmt::Write;
use crate::error::{invalid_config, SnaptoError};
use crate::history::{contains_text, has_substring, occurs_at};

verus! {

/// Characters a random placeholder draws from.
pub const CHARSET: &'static str = "abcdefghijklmnopqrstuvwxyzABCDEFGHIJKLMNOPQRSTUVWXYZ0123456789";

/// Longest random run a template may ask for.
pub const MAX_RANDOM: usize = 32;

/// `s` with every non-overlapping occurrence of `from` (scanning left to
/// right) replaced by `to`. An empty `from` leaves `s` unchanged.
pub open spec fn replaced(s: Seq<char>, from: Seq<char>, to: Seq<char>) -> Seq<char>
    decreases s.len(),
{
    if from.len() == 0 || s.len() < from.len() {
        s
    } else if s.subrange(0, from.len() as int) == from {
        to + replaced(s.subrange(from.len() as int, s.len() as int), from, to)
    } else {
        seq![s[0]] + replaced(s.subrange(1, s.len() as int), from, to)
    }
}

/// Whether `s` has `p` at position `i`, comparing characters.
fn has_at(s: &str, len: usize, i: usize, p: &str, n: usize) -> (r: bool)
    requires
        len == s@.len(),
        n == p@.len(),
        i <= len,
    ensures
        r == (i + n <= len && s@.subrange(i as int, i + n) == p@),
{
    if n > len - i {
        return false;
    }
    let mut j: usize = 0;
    while j < n
        invariant
            i + n <= len,
            len == s@.len(),
            n == p@.len(),
            j <= n,
            forall|m: int| 0 <= m < j ==> s@[i + m] == p@[m],
        decreases n - j,
    {
        if s.get_char(i + j) != p.get_char(j) {
            proof {
                assert(s@.subrange(i as int, i + n)[j as int] != p@[j as int]);
            }
            return false;
        }
        j = j + 1;
    }
    proof {
        assert(s@.subrange(i as int, i + n) =~= p@);
    }
    true
}

/// Replaces every occurrence of `from` in `s` by `to`, left to right.
pub fn replace_all(s: &str, from: &str, to: &str) -> (r: String)
    ensures
        r@ == replaced(s@, from@, to@),
{
    let len = s.unicode_len();
    let n = from.unicode_len();
    if n == 0 {
        return String::from_str(s);
    }
    let mut out = String::new();
    let mut i: usize = 0;
    proof {
        assert(s@.subrange(0, len as int) =~= s@);
        assert(out@ + s@ =~= s@);
    }
    while i < len
        invariant
            i <= len,
            len == s@.len(),
            n == from@.len(),
            n > 0,
            out@ + replaced(s@.subrange(i as int, len as int), from@, to@) == replaced(s@, from@, to@),
        decreases len - i,
    {
        let ghost rest = s@.subrange(i as int, len as int);
        if has_at(s, len, i, from, n) {
            proof {
                assert(rest.subrange(0, n as int) =~= s@.subrange(i as int, i + n));
                assert(rest.subrange(n as int, rest.len() as int) =~= s@.subrange(i + n, len as int));
            }
            out.append(to);
            i = i + n;
        } else {
            proof {
                if rest.len() >= n {
                    assert(rest.subrange(0, n as int) =~= s@.subrange(i as int, i + n));
                }
                assert(rest.subrange(1, rest.len() as int) =~= s@.subrange(i + 1, len as int));
                assert(s@.subrange(i as int, i + 1) =~= seq![rest[0]]);
            }
            out.append(s.substring_char(i, i + 1));
            i = i + 1;
        }
    }
    proof {
        assert(s@.subrange(len as int, len as int) =~= Seq::<char>::empty());
        assert(out@ + Seq::<char>::empty() =~= out@);
    }
    out
}

/// `s` without its leading dots.
pub open spec fn trim_leading_dots(s: Seq<char>) -> Seq<char>
    decreases s.len(),
{
    if s.len() > 0 && s[0] == '.' {
        trim_leading_dots(s.subrange(1, s.len() as int))
    } else {
        s
    }
}

/// A file name from a stem and an extension; a leading dot on the
/// extension is dropped, and an empty extension adds nothing.
pub open spec fn with_extension(stem: Seq<char>, ext: Seq<char>) -> Seq<char> {
    if ext.len() == 0 {
        stem
    } else {
        stem + "."@ + trim_leading_dots(ext)
    }
}

proof fn lemma_trim_from(s: Seq<char>, k: int)
    requires
        0 <= k <= s.len(),
        forall|j: int| 0 <= j < k ==> s[j] == '.',
    ensures
        trim_leading_dots(s) == trim_leading_dots(s.subrange(k, s.len() as int)),
    decreases k,
{
    if k > 0 {
        let t = s.subrange(1, s.len() as int);
        lemma_trim_from(t, k - 1);
        assert(t.subrange(k - 1, t.len() as int) =~= s.subrange(k, s.len() as int));
    } else {
        assert(s.subrange(0, s.len() as int) =~= s);
    }
}

/// Appends `ext` to `stem`: nothing for an empty extension, else a dot and
/// the extension without its leading dots.
pub fn add_extension(stem: String, ext: &str) -> (r: String)
    ensures
        r@ == with_extension(stem@, ext@),
{
    let len = ext.unicode_len();
    if len == 0 {
        return stem;
    }
    let mut k: usize = 0;
    while k < len && ext.get_char(k) == '.'
        invariant
            k <= len,
            len == ext@.len(),
            forall|j: int| 0 <= j < k ==> ext@[j] == '.',
        decreases len - k,
    {
        k = k + 1;
    }
    proof {
        lemma_trim_from(ext@, k as int);
        let t = ext@.subrange(k as int, len as int);
        assert(!(t.len() > 0 && t[0] == '.'));
    }
    let mut s = stem;
    s.append(".");
    s.append(ext.substring_char(k, len));
    s
}

/// Value of a run of decimal digits.
pub open spec fn digits_value(s: Seq<char>) -> nat
    decreases s.len(),
{
    if s.len() == 0 {
        0
    } else {
        (digits_value(s.drop_last()) * 10 + (s.last() as int - '0' as int)) as nat
    }
}

/// Every character is an ASCII digit.
pub open spec fn all_digits(s: Seq<char>) -> bool {
    forall|i: int| 0 <= i < s.len() ==> '0' <= #[trigger] s[i] <= '9'
}

/// The digits of a length, after an optional `+`.
pub open spec fn length_digits(s: Seq<char>) -> Seq<char> {
    if s.len() > 0 && s[0] == '+' {
        s.subrange(1, s.len() as int)
    } else {
        s
    }
}

/// The length a `{random:N}` placeholder asks for, when `N` is a decimal
/// number (an optional `+`, then digits) from 1 to 32.
pub open spec fn random_length(s: Seq<char>) -> Option<nat> {
    let d = length_digits(s);
    if d.len() > 0 && all_digits(d) && 1 <= digits_value(d) <= MAX_RANDOM {
        Some(digits_value(d))
    } else {
        None
    }
}

/// Reads the `N` of a `{random:N}` placeholder.
pub fn parse_random_length(s: &str) -> (r: Option<usize>)
    ensures
        r matches Some(n) ==> random_length(s@) == Some(n as nat),
        r is None ==> random_length(s@) is None,
{
    let len = s.unicode_len();
    let mut start: usize = 0;
    if len > 0 && s.get_char(0) == '+' {
        start = 1;
    }
    let ghost d = length_digits(s@);
    proof {
        assert(d =~= s@.subrange(start as int, len as int));
    }
    if start == len {
        return None;
    }
    let mut value: usize = 0;
    let mut i: usize = start;
    while i < len
        invariant
            start <= i <= len,
            len == s@.len(),
            d == s@.subrange(start as int, len as int),
            d == length_digits(s@),
            all_digits(s@.subrange(start as int, i as int)),
            value as nat == if digits_value(s@.subrange(start as int, i as int)) <= 33 {
                digits_value(s@.subrange(start as int, i as int))
            } else {
                33
            },
        decreases len - i,
    {
        let c = s.get_char(i);
        if c < '0' || c > '9' {
            proof {
                assert(d[i - start] == c);
                assert(!all_digits(d));
            }
            return None;
        }
        let digit: usize = (c as u32 - '0' as u32) as usize;
        let ghost prev = s@.subrange(start as int, i as int);
        let ghost next = s@.subrange(start as int, i + 1);
        proof {
            assert(next.drop_last() =~= prev);
            assert(next.last() == c);
            assert(digits_value(next) == digits_value(prev) * 10 + digit);
            assert(all_digits(next)) by {
                assert forall|k: int| 0 <= k < next.len() implies '0' <= #[trigger] next[k] <= '9' by {
                    if k < prev.len() {
                        assert(next[k] == prev[k]);
                    }
                }
            }
        }
        if value >= 33 {
            value = 33;
            proof {
                assert(digits_value(prev) >= 33);
                assert(digits_value(next) >= 33) by (nonlinear_arith)
                    requires digits_value(next) == digits_value(prev) * 10 + digit, digits_value(prev) >= 33;
            }
        } else {
            let v = value * 10 + digit;
            value = if v > 33 { 33 } else { v };
        }
        i = i + 1;
    }
    proof {
        assert(s@.subrange(start as int, len as int) == d);
    }
    if value >= 1 && value <= MAX_RANDOM {
        Some(value)
    } else {
        None
    }
}

/// Relies on `rand::thread_rng().gen_range(0..bound)`, which panics on an
/// empty range: a random index below `bound`.
#[verifier::external_body]
fn random_index(bound: usize) -> (r: usize)
    requires
        bound > 0,
    ensures
        r < bound,
{
    rand::Rng::gen_range(&mut rand::thread_rng(), 0..bound)
}

/// Whether a character is one of the random placeholder's characters.
pub open spec fn is_charset_char(c: char) -> bool {
    ('a' <= c <= 'z') || ('A' <= c <= 'Z') || ('0' <= c <= '9')
}

/// `length` random letters and digits.
pub fn generate_random_string(length: usize) -> (r: String)
    ensures
        r@.len() == length,
        forall|i: int| 0 <= i < r@.len() ==> is_charset_char(#[trigger] r@[i]),
{
    proof {
        reveal_strlit("abcdefghijklmnopqrstuvwxyzABCDEFGHIJKLMNOPQRSTUVWXYZ0123456789");
    }
    let n = CHARSET.unicode_len();
    let mut out = String::new();
    let mut i: usize = 0;
    while i < length
        invariant
            i <= length,
            n == CHARSET@.len(),
            n == 62,
            forall|k: int| 0 <= k < 62 ==> is_charset_char(#[trigger] CHARSET@[k]),
            out@.len() == i,
            forall|k: int| 0 <= k < out@.len() ==> is_charset_char(#[trigger] out@[k]),
        decreases length - i,
    {
        let idx = random_index(n);
        let ghost before = out@;
        out.append(CHARSET.substring_char(idx, idx + 1));
        proof {
            assert(out@ =~= before + CHARSET@.subrange(idx as int, idx + 1));
            assert forall|k: int| 0 <= k < out@.len() implies is_charset_char(#[trigger] out@[k]) by {
                if k >= before.len() {
                    assert(out@[k] == CHARSET@[idx as int]);
                } else {
                    assert(out@[k] == before[k]);
                }
            }
        }
        i = i + 1;
    }
    out
}

/// Relies on chrono: `Local::now().format(fmt)`, written into a text. The
/// result depends on the clock; `None` when the format is invalid.
#[verifier::external_body]
fn now_formatted(fmt: &str) -> (r: Option<String>)
{
    let mut s = String::new();
    match write!(s, "{}", chrono::Local::now().format(fmt)) {
        Ok(()) => Some(s),
        Err(_) => None,
    }
}

/// Relies on uuid: `Builder::from_random_bytes(..).into_uuid().to_string()`,
/// the version-4 UUID made of sixteen random bytes, in its 36-character
/// hyphenated form.
#[verifier::external_body]
fn uuid_from_bytes(bytes: &Vec<u8>) -> (r: String)
    requires
        bytes@.len() == 16,
    ensures
        r@.len() == 36,
{
    let mut arr = [0u8; 16];
    arr.copy_from_slice(bytes);
    uuid::Builder::from_random_bytes(arr).into_uuid().to_string()
}

/// The decimal digits of a number, without leading zeros.
pub open spec fn decimal_of(n: nat) -> Seq<char>
    decreases n,
{
    if n < 10 {
        seq![DIGITS@[n as int]]
    } else {
        decimal_of(n / 10).push(DIGITS@[(n % 10) as int])
    }
}

/// The decimal digits, in order.
pub const DIGITS: &'static str = "0123456789";

proof fn lemma_digit(d: nat)
    requires
        d < 10,
    ensures
        '0' <= DIGITS@[d as int] <= '9',
        DIGITS@[d as int] as int - '0' as int == d,
{
    reveal_strlit("0123456789");
    assert(DIGITS@ =~= seq!['0', '1', '2', '3', '4', '5', '6', '7', '8', '9']);
}

proof fn lemma_decimal_value(n: nat)
    ensures
        decimal_of(n).len() > 0,
        all_digits(decimal_of(n)),
        digits_value(decimal_of(n)) == n,
    decreases n,
{
    reveal_strlit("0123456789");
    lemma_digit(n % 10);
    if n < 10 {
        assert(decimal_of(n).drop_last() =~= Seq::<char>::empty());
        assert(digits_value(Seq::<char>::empty()) == 0);
        assert(decimal_of(n).last() == DIGITS@[(n % 10) as int]);
        assert(n % 10 == n);
    } else {
        lemma_decimal_value(n / 10);
        let d = decimal_of(n);
        assert(d.drop_last() =~= decimal_of(n / 10));
        assert(digits_value(d) == digits_value(decimal_of(n / 10)) * 10 + (n % 10));
        assert((n / 10) * 10 + n % 10 == n) by (nonlinear_arith);
        assert forall|i: int| 0 <= i < d.len() implies '0' <= #[trigger] d[i] <= '9' by {
            if i < d.len() - 1 {
                assert(d[i] == decimal_of(n / 10)[i]);
            }
        }
    }
}

/// The decimal text of a number.
pub fn decimal_text(n: u64) -> (r: String)
    ensures
        r@ == decimal_of(n as nat),
        r@.len() > 0,
        all_digits(r@),
        digits_value(r@) == n,
{
    proof {
        reveal_strlit("0123456789");
        lemma_decimal_value(n as nat);
    }
    let mut m: u64 = n;
    let mut out = String::new();
    loop
        invariant
            m > 0 || out@.len() == 0,
            m <= n,
            decimal_of(n as nat) == decimal_of(m as nat) + out@,
            DIGITS@.len() == 10,
        decreases m,
    {
        let d: usize = (m % 10) as usize;
        let mut next = String::from_str(DIGITS.substring_char(d, d + 1));
        next.append(out.as_str());
        proof {
            if m >= 10 {
                assert(decimal_of(m as nat) == decimal_of((m / 10) as nat).push(DIGITS@[d as int]));
                assert(decimal_of(m as nat) + out@ =~= decimal_of((m / 10) as nat) + next@);
            } else {
                assert(decimal_of(m as nat) + out@ =~= next@);
            }
        }
        out = next;
        if m < 10 {
            proof {
                assert(out@ == decimal_of(n as nat));
                lemma_decimal_value(n as nat);
                assert(all_digits(out@));
                assert(digits_value(out@) == n as nat);
            }
            return out;
        }
        m = m / 10;
    }
}

/// Whether the `{random:N}` placeholders of `s`, read left to right from
/// position `i`, are well formed: each is closed by a `}` and asks for a
/// length from 1 to 32. `open` is the start of the length of a placeholder
/// whose `}` has not been reached yet.
pub open spec fn placeholders_ok(s: Seq<char>, i: int, open: Option<int>) -> bool
    decreases s.len() - i,
{
    if i >= s.len() {
        open is None
    } else {
        match open {
            Some(start) => if s[i] == '}' {
                random_length(s.subrange(start, i)) is Some && placeholders_ok(s, i + 1, None)
            } else {
                placeholders_ok(s, i + 1, open)
            },
            None => if i + 8 <= s.len() && s.subrange(i, i + 8) == "{random:"@ {
                placeholders_ok(s, i + 8, Some(i + 8))
            } else {
                placeholders_ok(s, i + 1, None)
            },
        }
    }
}

/// `s` with each `{random:N}` placeholder replaced by `N` random letters and
/// digits. It fails, with a configuration error, exactly when a placeholder
/// lacks its `}` or asks for a length outside 1 to 32. Text without `{`
/// comes back unchanged.
pub fn expand_random(s: &str) -> (r: Result<String, SnaptoError>)
    ensures
        r is Ok <==> placeholders_ok(s@, 0, None),
        !has_substring(s@, "{random:"@) ==> (r matches Ok(o) && o@ == s@),
        r matches Err(e) ==> e matches SnaptoError::Config(crate::error::ConfigError::Invalid(_)),
{
    let len = s.unicode_len();
    let mut out = String::new();
    let mut i: usize = 0;
    while i < len
        invariant
            i <= len,
            len == s@.len(),
            !has_substring(s@, "{random:"@) ==> out@ == s@.subrange(0, i as int),
            placeholders_ok(s@, 0, None) == placeholders_ok(s@, i as int, None),
        decreases len - i,
    {
        proof { reveal_strlit("{random:"); }
        if has_at(s, len, i, "{random:", 8) {
            proof {
                assert(occurs_at(s@, "{random:"@, i as int));
            }
            let mut j: usize = i + 8;
            while j < len && s.get_char(j) != '}'
                invariant
                    i + 8 <= j <= len,
                    len == s@.len(),
                    placeholders_ok(s@, i as int, None) == placeholders_ok(s@, j as int, Some(i + 8)),
                decreases len - j,
            {
                j = j + 1;
            }
            if j == len {
                return Err(invalid_config(String::from_str("Malformed {random:N} placeholder")));
            }
            match parse_random_length(s.substring_char(i + 8, j)) {
                Some(n) => {
                    let r = generate_random_string(n);
                    out.append(r.as_str());
                    i = j + 1;
                }
                None => {
                    return Err(invalid_config(crate::error::message3(
                        "Invalid random length in template: ", s.substring_char(i + 8, j), ". Must be between 1 and 32")));
                }
            }
        } else {
            out.append(s.substring_char(i, i + 1));
            proof {
                assert(s@.subrange(0, i + 1) =~= s@.subrange(0, i as int) + s@.subrange(i as int, i + 1));
            }
            i = i + 1;
        }
    }
    proof {
        assert(s@.subrange(0, len as int) =~= s@);
    }
    Ok(out)
}

/// Generates file names from templates with the placeholders `{date}`,
/// `{time}`, `{uuid}`, `{counter}` and `{random:N}`.
#[derive(Debug, Clone)]
pub struct TemplateParser {
    date_format: String,
    time_format: String,
    counter: u64,
}

/// The `{counter}` value a fresh parser starts from.
pub const COUNTER_START: u64 = 1;

impl TemplateParser {
    pub closed spec fn spec_counter(&self) -> u64 {
        self.counter
    }

    /// A parser with the given `{date}` and `{time}` formats (chrono syntax).
    pub fn new(date_format: String, time_format: String) -> (r: Self)
        ensures
            r.spec_counter() == COUNTER_START,
    {
        TemplateParser { date_format, time_format, counter: COUNTER_START }
    }

    /// The value the next `{counter}` gets.
    pub fn counter(&self) -> (r: u64)
        ensures
            r == self.spec_counter(),
    {
        self.counter
    }

    /// Starts `{counter}` over from 1.
    pub fn reset_counter(&mut self)
        ensures
            final(self).spec_counter() == COUNTER_START,
    {
        self.counter = COUNTER_START;
    }

    /// Expands `template` and appends `extension` (a leading dot is dropped;
    /// an empty extension adds nothing). `{counter}` takes this parser's
    /// counter, which then goes up by one. For a template without `{date}`,
    /// `{time}` and `{uuid}` the outcome is fixed: it fails exactly on a bad
    /// `{random:N}`, and without `{random:` the name is the template with the
    /// counter put in, plus the extension.
    pub fn generate(&mut self, template: &str, extension: &str) -> (r: Result<String, SnaptoError>)
        requires
            old(self).spec_counter() < u64::MAX,
        ensures
            final(self).spec_counter() == old(self).spec_counter()
                || final(self).spec_counter() == old(self).spec_counter() + 1,
            fixed_template(template@) ==> final(self).spec_counter() == if has_substring(template@, "{counter}"@) {
                old(self).spec_counter() + 1
            } else {
                old(self).spec_counter() as int
            },
            fixed_template(template@) ==> (r is Ok <==> placeholders_ok(
                with_counter(template@, old(self).spec_counter() as nat), 0, None)),
            fixed_template(template@) && !has_substring(with_counter(template@, old(self).spec_counter() as nat), "{random:"@)
                ==> r == Ok::<String, SnaptoError>(r->Ok_0)
                    && r->Ok_0@ == with_extension(with_counter(template@, old(self).spec_counter() as nat), extension@),
            fixed_template(template@) ==> (r matches Err(e) ==> e matches SnaptoError::Config(crate::error::ConfigError::Invalid(_))),
            r matches Err(e) ==> (e matches SnaptoError::Config(crate::error::ConfigError::Invalid(_)) || e is Other),
    {
        let mut result = String::from_str(template);
        if contains_text(result.as_str(), "{date}") {
            let date = match now_formatted(self.date_format.as_str()) {
                Some(d) => d,
                None => return Err(invalid_config(String::from_str("Invalid date format"))),
            };
            result = replace_all(result.as_str(), "{date}", date.as_str());
        }
        if contains_text(result.as_str(), "{time}") {
            let time = match now_formatted(self.time_format.as_str()) {
                Some(t) => t,
                None => return Err(invalid_config(String::from_str("Invalid time format"))),
            };
            result = replace_all(result.as_str(), "{time}", time.as_str());
        }
        if contains_text(result.as_str(), "{uuid}") {
            let bytes = match crate::keychain::fresh_bytes(16) {
                Some(b) => b,
                None => return Err(SnaptoError::Other(String::from_str("No random source for {uuid}"))),
            };
            let id = uuid_from_bytes(&bytes);
            result = replace_all(result.as_str(), "{uuid}", id.as_str());
        }
        let ghost before_counter = result@;
        if contains_text(result.as_str(), "{counter}") {
            let n = decimal_text(self.counter);
            self.counter = self.counter + 1;
            result = replace_all(result.as_str(), "{counter}", n.as_str());
        }
        proof {
            if fixed_template(template@) {
                assert(before_counter == template@);
                assert(result@ == with_counter(template@, old(self).counter as nat));
            }
        }
        let expanded = expand_random(result.as_str())?;
        Ok(add_extension(expanded, extension))
    }
}

/// The template has no `{date}`, `{time}` or `{uuid}`: its name depends
/// on the counter and random characters only.
pub open spec fn fixed_template(t: Seq<char>) -> bool {
    !has_substring(t, "{date}"@) && !has_substring(t, "{time}"@) && !has_substring(t, "{uuid}"@)
}

/// `t` with every `{counter}` replaced by the decimal text of `n`.
pub open spec fn with_counter(t: Seq<char>, n: nat) -> Seq<char> {
    if has_substring(t, "{counter}"@) {
        replaced(t, "{counter}"@, decimal_of(n))
    } else {
        t
    }
}

impl Default for TemplateParser {
    /// Dates as `%Y%m%d`, times as `%H%M%S`.
    fn default() -> (r: Self)
        ensures
            r.spec_counter() == COUNTER_START,
    {
        TemplateParser::new(String::from_str("%Y%m%d"), String::from_str("%H%M%S"))
    }
}

/// A file name from `template` and `extension` with the default formats and
/// a fresh counter.
pub fn generate_filename(template: &str, extension: &str) -> (r: Result<String, SnaptoError>)
    ensures
        fixed_template(template@) ==> (r is Ok <==> placeholders_ok(with_counter(template@, 1), 0, None)),
        fixed_template(template@) && !has_substring(with_counter(template@, 1), "{random:"@)
            ==> r == Ok::<String, SnaptoError>(r->Ok_0) && r->Ok_0@ == with_extension(with_counter(template@, 1), extension@),
        r matches Err(e) ==> (e matches SnaptoError::Config(crate::error::ConfigError::Invalid(_)) || e is Other),
{
    let mut parser = TemplateParser::default();
    parser.generate(template, extension)
}

} // verus!
