use crate::protocol::DEFAULT_SERVER_PORT;
use vstd::prelude::*;

verus! {

/// How many connection attempts a client makes before it gives up.
pub const DEFAULT_MAX_RETRIES: u32 = 10;

/// How long a client waits after its first failed attempt, in seconds.
pub const DEFAULT_INITIAL_DELAY_SECS: u64 = 1;

/// Where and how persistently a client connects.
#[derive(Clone, Debug)]
pub struct ClientSettings {
    pub max_retries: u32,
    pub initial_delay_secs: u64,
    pub server_ip: String,
    pub server_port: String,
}

impl ClientSettings {
    /// The settings a client starts with: ten attempts, a first wait of one
    /// second, and the server address configured for it, by default
    /// `127.0.0.1` port `5000`.
    pub fn from_config(server_ip: Option<String>, server_port: Option<String>) -> (settings:
        ClientSettings)
        ensures
            settings.max_retries == DEFAULT_MAX_RETRIES,
            settings.initial_delay_secs == DEFAULT_INITIAL_DELAY_SECS,
            settings.server_ip@ == match server_ip {
                Some(ip) => ip@,
                None => "127.0.0.1"@,
            },
            settings.server_port@ == match server_port {
                Some(port) => port@,
                None => "5000"@,
            },
    {
        let ip = match server_ip {
            Some(ip) => ip,
            None => "127.0.0.1".to_owned(),
        };
        let port = match server_port {
            Some(port) => port,
            None => "5000".to_owned(),
        };
        ClientSettings {
            max_retries: DEFAULT_MAX_RETRIES,
            initial_delay_secs: DEFAULT_INITIAL_DELAY_SECS,
            server_ip: ip,
            server_port: port,
        }
    }

    /// The server's address as `ip:port`.
    pub fn server_address(&self) -> (address: String)
        ensures
            address@ == self.server_ip@ + ":"@ + self.server_port@,
    {
        let mut address = self.server_ip.clone();
        address.append(":");
        address.append(self.server_port.as_str());
        address
    }
}

/// Whether `c` is a decimal digit.
pub open spec fn is_digit(c: char) -> bool {
    '0' <= c && c <= '9'
}

/// The value of a string of decimal digits, most significant first.
pub open spec fn decimal_value(digits: Seq<char>) -> int
    decreases digits.len(),
{
    if digits.len() == 0 {
        0
    } else {
        decimal_value(digits.drop_last()) * 10 + (digits.last() as int - '0' as int)
    }
}

/// The digits of an unsigned number as written: without its leading `+`, if
/// it has one.
pub open spec fn unsigned_digits(s: Seq<char>) -> Seq<char> {
    if s.len() > 0 && s[0] == '+' {
        s.drop_first()
    } else {
        s
    }
}

/// What reading `s` as a `u64` gives: an optional `+`, then one or more
/// decimal digits whose value fits in a `u64`; anything else is no number.
pub open spec fn parse_u64_spec(s: Seq<char>) -> Option<u64> {
    let d = unsigned_digits(s);
    if d.len() > 0 && (forall|i: int| 0 <= i < d.len() ==> is_digit(#[trigger] d[i]))
        && decimal_value(d) <= u64::MAX {
        Some(decimal_value(d) as u64)
    } else {
        None
    }
}

proof fn lemma_decimal_value_nonneg(d: Seq<char>)
    requires
        forall|i: int| 0 <= i < d.len() ==> is_digit(#[trigger] d[i]),
    ensures
        decimal_value(d) >= 0,
    decreases d.len(),
{
    if d.len() > 0 {
        lemma_decimal_value_nonneg(d.drop_last());
    }
}

proof fn lemma_decimal_prefix_le(d: Seq<char>, k: int)
    requires
        0 <= k <= d.len(),
        forall|i: int| 0 <= i < d.len() ==> is_digit(#[trigger] d[i]),
    ensures
        decimal_value(d.take(k)) <= decimal_value(d),
    decreases d.len() - k,
{
    if k < d.len() {
        lemma_decimal_prefix_le(d, k + 1);
        assert(d.take(k + 1).drop_last() =~= d.take(k));
        lemma_decimal_value_nonneg(d.take(k));
    } else {
        assert(d.take(k) =~= d);
    }
}

/// How reading a `u64` goes, character by character: nothing and a lone `+`
/// are no number; a single digit is its own value; a leading `+` before a
/// digit changes nothing; a digit appended to a number makes it ten times
/// larger plus the digit, or no number once that passes `u64::MAX`; and any
/// other character appended makes no number.
pub proof fn lemma_parse_u64_steps(d: Seq<char>, c: char)
    ensures
        parse_u64_spec(Seq::<char>::empty()) == None::<u64>,
        parse_u64_spec(seq!['+']) == None::<u64>,
        '0' <= c <= '9' ==> parse_u64_spec(seq![c]) == Some(((c as int) - ('0' as int)) as u64),
        d.len() > 0 && d[0] != '+' ==> parse_u64_spec(seq!['+'] + d) == parse_u64_spec(d),
        ('0' <= c <= '9' && parse_u64_spec(d) is Some) ==> {
            let v = parse_u64_spec(d)->0 as int;
            let next = v * 10 + ((c as int) - ('0' as int));
            &&& next <= u64::MAX ==> parse_u64_spec(d.push(c)) == Some(next as u64)
            &&& next > u64::MAX ==> parse_u64_spec(d.push(c)) == None::<u64>
        },
        !('0' <= c <= '9') ==> parse_u64_spec(d.push(c)) == None::<u64>,
{
    let one = seq![c];
    assert(unsigned_digits(Seq::<char>::empty()) =~= Seq::<char>::empty());
    assert(unsigned_digits(seq!['+']) =~= Seq::<char>::empty());
    if '0' <= c <= '9' {
        assert(c != '+');
        assert(unsigned_digits(one) == one);
        assert(one.drop_last() =~= Seq::<char>::empty());
        assert(decimal_value(one) == decimal_value(Seq::<char>::empty()) * 10 + (c as int - '0' as int));
        assert(forall|i: int| 0 <= i < one.len() ==> is_digit(#[trigger] one[i]));
    }
    if d.len() > 0 && d[0] != '+' {
        assert((seq!['+'] + d)[0] == '+');
        assert(unsigned_digits(seq!['+'] + d) =~= d);
        assert(unsigned_digits(d) == d);
    }
    let u = unsigned_digits(d);
    if d.len() > 0 {
        assert(d.push(c)[0] == d[0]);
        if d[0] == '+' {
            assert(unsigned_digits(d.push(c)) =~= u.push(c));
        } else {
            assert(unsigned_digits(d.push(c)) =~= u.push(c));
        }
    }
    if '0' <= c <= '9' && parse_u64_spec(d) is Some {
        assert(d.len() > 0);
        assert(u.len() > 0);
        let w = u.push(c);
        assert(w.drop_last() =~= u);
        assert(w.last() == c);
        assert(decimal_value(w) == decimal_value(u) * 10 + (c as int - '0' as int));
        assert(decimal_value(u) <= u64::MAX);
        lemma_decimal_value_nonneg(u);
        assert(parse_u64_spec(d)->0 as int == decimal_value(u));
        assert(unsigned_digits(d.push(c)) == w);
        assert(forall|i: int| 0 <= i < w.len() ==> is_digit(#[trigger] w[i])) by {
            assert forall|i: int| 0 <= i < w.len() implies is_digit(#[trigger] w[i]) by {
                if i < u.len() {
                    assert(w[i] == u[i]);
                }
            }
        }
    }
    if !('0' <= c <= '9') {
        if d.len() > 0 {
            let w = u.push(c);
            assert(w[w.len() - 1] == c);
            assert(!is_digit(w[w.len() - 1]));
        } else {
            assert(d.push(c) =~= one);
            if c == '+' {
                assert(unsigned_digits(one) =~= Seq::<char>::empty());
            } else {
                assert(unsigned_digits(one) == one);
                assert(!is_digit(one[0]));
            }
        }
    }
}

/// Reads `s` as a `u64` the way Rust's `str::parse::<u64>` does.
pub fn parse_u64(s: &str) -> (n: Option<u64>)
    ensures
        n == parse_u64_spec(s@),
{
    let len = s.unicode_len();
    if len == 0 {
        return None;
    }
    let start: usize = if s.get_char(0) == '+' {
        1
    } else {
        0
    };
    let ghost d = unsigned_digits(s@);
    assert(d =~= s@.subrange(start as int, s@.len() as int));
    if start == len {
        return None;
    }
    let mut value: u64 = 0;
    let mut i: usize = start;
    while i < len
        invariant
            start <= i <= len,
            len == s@.len(),
            d == s@.subrange(start as int, len as int),
            d == unsigned_digits(s@),
            forall|j: int| 0 <= j < i - start ==> is_digit(#[trigger] d[j]),
            value == decimal_value(d.take(i - start)),
        decreases len - i,
    {
        let c = s.get_char(i);
        if !('0' <= c && c <= '9') {
            assert(!is_digit(d[i - start]));
            return None;
        }
        let digit: u64 = (c as u32 - '0' as u32) as u64;
        assert(d.take(i - start + 1).drop_last() =~= d.take(i - start));
        assert(d.take(i - start + 1).last() == c);
        let next = match value.checked_mul(10) {
            Some(v) => v.checked_add(digit),
            None => None,
        };
        match next {
            Some(v) => {
                value = v;
                i = i + 1;
            },
            None => {
                proof {
                    let k = i - start + 1;
                    if forall|j: int| 0 <= j < d.len() ==> is_digit(#[trigger] d[j]) {
                        lemma_decimal_prefix_le(d, k);
                    }
                }
                return None;
            },
        }
    }
    assert(d.take(len - start) =~= d);
    Some(value)
}

/// The configured client id, if there is a setting and it reads as a `u64`.
pub fn configured_client_id(configured: Option<String>) -> (id: Option<u64>)
    ensures
        id == match configured {
            Some(s) => parse_u64_spec(s@),
            None => None,
        },
{
    match &configured {
        Some(s) => parse_u64(s.as_str()),
        None => None,
    }
}

/// The client id taken from the current time in milliseconds, cut to 64 bits.
pub fn time_based_client_id(now_millis: u128) -> (id: u64)
    ensures
        id == now_millis as u64,
{
    #[verifier::truncate]
    (now_millis as u64)
}

/// The id a client uses: the configured one if it reads as a `u64`, else the
/// current time in milliseconds, cut to 64 bits.
pub fn client_id_from(configured: Option<String>, now_millis: u128) -> (id: u64)
    ensures
        id == match configured {
            Some(s) => match parse_u64_spec(s@) {
                Some(n) => n,
                None => now_millis as u64,
            },
            None => now_millis as u64,
        },
{
    match configured_client_id(configured) {
        Some(n) => n,
        None => time_based_client_id(now_millis),
    }
}

/// The port a client connects to by default, `"5000"`, is the port the
/// server listens on.
pub proof fn lemma_default_port_is_server_port()
    ensures
        parse_u64_spec("5000"@) == Some(DEFAULT_SERVER_PORT as u64),
{
    reveal_strlit("5000");
    let s = "5000"@;
    assert(unsigned_digits(s) == s);
    assert(s.drop_last().drop_last().drop_last().drop_last().len() == 0);
    assert(s.drop_last().drop_last().drop_last() =~= seq!['5']);
    assert(s.drop_last().drop_last() =~= seq!['5', '0']);
    assert(s.drop_last() =~= seq!['5', '0', '0']);
    assert(decimal_value(seq!['5']) == 5) by {
        assert(seq!['5'].drop_last() =~= Seq::<char>::empty());
        assert(decimal_value(Seq::<char>::empty()) == 0);
        assert(seq!['5'].last() == '5');
        assert(('5' as int) - ('0' as int) == 5);
    }
    assert(decimal_value(seq!['5', '0']) == 50) by {
        assert(seq!['5', '0'].drop_last() =~= seq!['5']);
    }
    assert(decimal_value(seq!['5', '0', '0']) == 500) by {
        assert(seq!['5', '0', '0'].drop_last() =~= seq!['5', '0']);
    }
    assert(decimal_value(s) == 5000);
    assert(forall|i: int| 0 <= i < s.len() ==> is_digit(#[trigger] s[i]));
}

/// The lower-case form of `s`, as Rust's `str::to_lowercase` computes it.
pub uninterp spec fn lowercase(s: Seq<char>) -> Seq<char>;

/// The code of the lower-case form of an ASCII character: a capital letter
/// becomes its small letter, every other character stays.
pub open spec fn ascii_lower_code(c: char) -> int {
    if 'A' <= c <= 'Z' {
        c as int + 32
    } else {
        c as int
    }
}

/// Calls `str::to_lowercase`. Claimed: the result is the named lower-case
/// form of the argument, a function of the argument alone; and on ASCII text
/// it keeps the length and turns each capital letter into its small letter,
/// leaving every other character as it is (the Unicode lower-case mapping
/// of ASCII characters).
#[verifier::external_body]
fn to_lowercase(s: &str) -> (lower: String)
    ensures
        lower@ == lowercase(s@),
        vstd::utf8::is_ascii_chars(s@) ==> {
            &&& lower@.len() == s@.len()
            &&& forall|i: int|
                0 <= i < s@.len() ==> (#[trigger] lower@[i]) as int == ascii_lower_code(s@[i])
        },
{
    s.to_lowercase()
}

/// Whether an already lower-cased setting reads `true`.
pub fn is_true_word(lowered: &String) -> (on: bool)
    ensures
        on == (lowered@ == "true"@),
{
    let expected = "true".to_owned();
    *lowered == expected
}

/// Whether ASCII text `s` reads `true` in any letter case: four characters
/// whose small forms are `t`, `r`, `u`, `e`.
pub open spec fn reads_true_any_case(s: Seq<char>) -> bool {
    &&& s.len() == 4
    &&& ascii_lower_code(s[0]) == 't' as int
    &&& ascii_lower_code(s[1]) == 'r' as int
    &&& ascii_lower_code(s[2]) == 'u' as int
    &&& ascii_lower_code(s[3]) == 'e' as int
}

/// Whether `s` reads `true` in any letter case, decided on its characters.
pub fn reads_true_ignoring_ascii_case(s: &str) -> (on: bool)
    ensures
        on == reads_true_any_case(s@),
        on == (s@.len() == 4 && (s@[0] == 't' || s@[0] == 'T') && (s@[1] == 'r' || s@[1] == 'R')
            && (s@[2] == 'u' || s@[2] == 'U') && (s@[3] == 'e' || s@[3] == 'E')),
{
    if s.unicode_len() != 4 {
        return false;
    }
    let a = s.get_char(0);
    let b = s.get_char(1);
    let c = s.get_char(2);
    let d = s.get_char(3);
    (a == 't' || a == 'T') && (b == 'r' || b == 'R') && (c == 'u' || c == 'U') && (d == 'e' || d
        == 'E')
}

/// Lower-casing ASCII text gives `true` exactly when the text reads `true`
/// in any letter case: `True` and `TRUE` do, `false`, `yes` and ` true` do
/// not.
pub proof fn lemma_lowercase_reads_true(s: Seq<char>, lower: Seq<char>)
    requires
        vstd::utf8::is_ascii_chars(s),
        lower.len() == s.len(),
        forall|i: int| 0 <= i < s.len() ==> (#[trigger] lower[i]) as int == ascii_lower_code(s[i]),
    ensures
        (lower == "true"@) == reads_true_any_case(s),
{
    reveal_strlit("true");
    let t = "true"@;
    assert(t.len() == 4);
    if lower == t {
        assert(lower[0] == 't' && lower[1] == 'r' && lower[2] == 'u' && lower[3] == 'e');
    }
    if reads_true_any_case(s) {
        assert(lower[0] as int == 't' as int);
        assert(lower[1] as int == 'r' as int);
        assert(lower[2] as int == 'u' as int);
        assert(lower[3] as int == 'e' as int);
        assert(lower =~= t);
    }
}

/// Whether a client plays over the network: the setting, if present, reads
/// `true` in any letter case; with no setting the client plays alone. For
/// ASCII settings the answer is decided on the setting's own characters,
/// which agrees with its lower-cased form.
pub fn multiplayer_enabled(setting: Option<String>) -> (on: bool)
    ensures
        on == match setting {
            Some(s) => lowercase(s@) == "true"@,
            None => false,
        },
        match setting {
            Some(s) => vstd::utf8::is_ascii_chars(s@) ==> on == reads_true_any_case(s@),
            None => true,
        },
{
    match setting {
        Some(s) => {
            let lowered = to_lowercase(s.as_str());
            if s.as_str().is_ascii() {
                proof {
                    lemma_lowercase_reads_true(s@, lowered@);
                }
                reads_true_ignoring_ascii_case(s.as_str())
            } else {
                is_true_word(&lowered)
            }
        },
        None => false,
    }
}

} // verus!
