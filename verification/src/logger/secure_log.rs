//! A session log kept as a JSON array in the user's local data directory.
//!
//! The file begins with `[` and a line break; every record is one line,
//! indented by two spaces, with a comma written before every record but
//! the first; closing the log adds `]` and a line break, which makes the
//! file a JSON array of its records.
use vstd::prelude::*;
use crate::text::{decimal, push_decimal, opt_view};
use crate::paths::{joined_on, join_path_on};
use crate::engine::os::OS;

verus! {

/// A lower-case hexadecimal digit.
pub open spec fn is_lower_hex(c: char) -> bool {
    ('0' <= c && c <= '9') || ('a' <= c && c <= 'f')
}

/// The text of a random (version 4) UUID in hyphenated lower-case form:
/// 36 characters, hyphens at 8, 13, 18 and 23, lower-case hexadecimal
/// digits elsewhere, `4` at 14 and one of `8`, `9`, `a`, `b` at 19.
pub open spec fn is_v4_uuid_text(s: Seq<char>) -> bool {
    &&& s.len() == 36
    &&& forall|i: int| 0 <= i < 36 ==> (if i == 8 || i == 13 || i == 18 || i == 23 {
        #[trigger] s[i] == '-'
    } else {
        is_lower_hex(s[i])
    })
    &&& s[14] == '4'
    &&& (s[19] == '8' || s[19] == '9' || s[19] == 'a' || s[19] == 'b')
}

/// The hexadecimal digit for `n` (below sixteen), in lower case.
pub open spec fn hex_char(n: u8) -> char {
    if n < 10 {
        (n + 48) as char
    } else {
        (n + 87) as char
    }
}

/// Byte `i` of a version 4 UUID made from the random bytes `b`: byte 6
/// carries the version (4) in its high nibble, byte 8 the RFC 4122 variant
/// (`10` in its two high bits); the others are taken as they are.
pub open spec fn v4_byte(b: Seq<u8>, i: int) -> u8 {
    if i == 6 {
        (b[6] & 0x0fu8) | 0x40u8
    } else if i == 8 {
        (b[8] & 0x3fu8) | 0x80u8
    } else {
        b[i]
    }
}

/// Hexadecimal digit `k` (of 32) of that UUID: high nibble first.
pub open spec fn uuid_digit(b: Seq<u8>, k: int) -> char {
    let byte = v4_byte(b, k / 2);
    if k % 2 == 0 {
        hex_char(byte >> 4u8)
    } else {
        hex_char(byte & 0x0fu8)
    }
}

/// Which hexadecimal digit stands at character `i` of the hyphenated form.
pub open spec fn digit_position(i: int) -> int {
    if i < 8 {
        i
    } else if i < 13 {
        i - 1
    } else if i < 18 {
        i - 2
    } else if i < 23 {
        i - 3
    } else {
        i - 4
    }
}

/// The hyphenated lower-case text of the version 4 UUID made from the
/// random bytes `b`: groups of 8, 4, 4, 4 and 12 digits.
pub open spec fn v4_uuid_text(b: Seq<u8>) -> Seq<char> {
    Seq::new(
        36,
        |i: int|
            if i == 8 || i == 13 || i == 18 || i == 23 {
                '-'
            } else {
                uuid_digit(b, digit_position(i))
            },
    )
}

/// Calls `uuid::Builder::from_random_bytes` on `random` and renders the
/// UUID with `to_string`. The contract restates `uuid`'s source: the
/// builder sets the version nibble of byte 6 to 4 and the two high bits of
/// byte 8 to `10`, and the text is the hyphenated lower-case hexadecimal
/// form.
#[verifier::external_body]
fn uuid_text_from_random(random: [u8; 16]) -> (id: String)
    ensures
        id@ == v4_uuid_text(random@),
{
    uuid::Builder::from_random_bytes(random).into_uuid().to_string()
}

proof fn lemma_hex_char_is_lower_hex(n: u8)
    requires
        n < 16,
    ensures
        is_lower_hex(hex_char(n)),
{
}

/// The text made from any sixteen random bytes has the shape of a
/// version 4 UUID.
pub proof fn law_uuid_text_shape(b: Seq<u8>)
    requires
        b.len() == 16,
    ensures
        is_v4_uuid_text(v4_uuid_text(b)),
{
    let s = v4_uuid_text(b);
    assert forall|i: int| 0 <= i < 36 implies (if i == 8 || i == 13 || i == 18 || i == 23 {
        #[trigger] s[i] == '-'
    } else {
        is_lower_hex(s[i])
    }) by {
        if !(i == 8 || i == 13 || i == 18 || i == 23) {
            let byte = v4_byte(b, digit_position(i) / 2);
            assert(byte >> 4u8 < 16u8) by (bit_vector);
            assert(byte & 0x0fu8 < 16u8) by (bit_vector);
            lemma_hex_char_is_lower_hex(byte >> 4u8);
            lemma_hex_char_is_lower_hex(byte & 0x0fu8);
        }
    }
    let b6 = b[6];
    let b8 = b[8];
    assert(((b6 & 0x0fu8) | 0x40u8) >> 4u8 == 4u8) by (bit_vector);
    let hi = ((b8 & 0x3fu8) | 0x80u8) >> 4u8;
    assert(8u8 <= hi <= 11u8) by (bit_vector)
        requires
            hi == ((b8 & 0x3fu8) | 0x80u8) >> 4u8,
    ;
    assert(s[14] == hex_char(4u8));
    assert(s[19] == hex_char(hi));
}

/// The directory that holds the logs, given the user's local data
/// directory (`/tmp` when there is none).
pub open spec fn log_dir_of(os: OS, data_dir: Option<Seq<char>>) -> Seq<char> {
    let base = match data_dir {
        Some(d) => d,
        None => "/tmp"@,
    };
    joined_on(os, joined_on(os, base, "CleanSlateQA"@), "logs"@)
}

/// The log file of a session inside the log directory.
pub open spec fn log_file_of(os: OS, dir: Seq<char>, session_id: Seq<char>) -> Seq<char> {
    joined_on(os, dir, "cleanup_"@ + session_id + ".json"@)
}

/// A session log: its directory, its file and its session identifier.
pub struct SecureLogger {
    log_dir: String,
    log_path: String,
    session_id: String,
}

impl SecureLogger {
    /// The directory that holds the log.
    pub closed spec fn dir_text(&self) -> Seq<char> {
        self.log_dir@
    }

    /// The log file.
    pub closed spec fn path_text(&self) -> Seq<char> {
        self.log_path@
    }

    /// The session identifier.
    pub closed spec fn session_text(&self) -> Seq<char> {
        self.session_id@
    }

    /// A log for the session `session_id`, given the user's local data
    /// directory.
    pub fn for_session(os: OS, data_dir: Option<String>, session_id: String) -> (l: SecureLogger)
        ensures
            l.dir_text() == log_dir_of(os, opt_view(data_dir)),
            l.path_text() == log_file_of(os, log_dir_of(os, opt_view(data_dir)), session_id@),
            l.session_text() == session_id@,
    {
        let base = match data_dir {
            Some(d) => d,
            None => String::from_str("/tmp"),
        };
        let app_dir = join_path_on(os, base.as_str(), "CleanSlateQA");
        let log_dir = join_path_on(os, app_dir.as_str(), "logs");
        let mut file_name = String::from_str("cleanup_");
        file_name.append(session_id.as_str());
        file_name.append(".json");
        let log_path = join_path_on(os, log_dir.as_str(), file_name.as_str());
        SecureLogger { log_dir, log_path, session_id }
    }

    /// A log for a new session, in the user's local data directory as
    /// `dirs` reports it; the session identifier is the version 4 UUID made
    /// from the sixteen bytes `random`. The directory is not created here.
    pub fn new(os: OS, random: [u8; 16]) -> (l: SecureLogger)
        ensures
            l.session_text() == v4_uuid_text(random@),
            is_v4_uuid_text(l.session_text()),
            exists|data_dir: Option<Seq<char>>| l.dir_text() == #[trigger] log_dir_of(os, data_dir),
            l.path_text() == log_file_of(os, l.dir_text(), l.session_text()),
    {
        proof {
            law_uuid_text_shape(random@);
        }
        let session_id = uuid_text_from_random(random);
        let data_dir = crate::platform::data_local_dir();
        SecureLogger::for_session(os, data_dir, session_id)
    }

    /// The directory that holds the log.
    pub fn get_log_dir(&self) -> (d: &String)
        ensures
            d@ == self.dir_text(),
    {
        &self.log_dir
    }

    /// The log file.
    pub fn get_log_path(&self) -> (p: &String)
        ensures
            p@ == self.path_text(),
    {
        &self.log_path
    }

    /// The session identifier.
    pub fn get_session_id(&self) -> (s: &str)
        ensures
            s@ == self.session_text(),
    {
        self.session_id.as_str()
    }
}

/// A record identifier: the version 4 UUID made from the sixteen bytes
/// `random`.
pub fn new_record_id(random: [u8; 16]) -> (id: String)
    ensures
        id@ == v4_uuid_text(random@),
        is_v4_uuid_text(id@),
{
    proof {
        law_uuid_text_shape(random@);
    }
    uuid_text_from_random(random)
}

/// What a new log file starts with.
pub fn log_opening() -> (t: &'static str)
    ensures
        t@ == "[\n"@,
{
    "[\n"
}

/// What closes the log.
pub fn log_closing() -> (t: &'static str)
    ensures
        t@ == "]\n"@,
{
    "]\n"
}

/// The text appended for one record `record` to a log file of length
/// `file_len`: a comma when the file already holds a record (it is longer
/// than the opening `[` and line break), then the record on its own line,
/// indented by two spaces.
pub open spec fn record_piece(file_len: int, record: Seq<char>) -> Seq<char> {
    (if file_len > 2 { ","@ } else { Seq::<char>::empty() }) + "  "@ + record + "\n"@
}

/// The text appended for one record, serialised as `record_json`, to a log
/// file that holds `file_len` bytes. The opening is two one-byte
/// characters, so the file holds a record exactly when it is longer.
pub fn record_text(file_len: u64, record_json: &str) -> (t: String)
    ensures
        t@ == record_piece(file_len as int, record_json@),
{
    let mut t = if file_len > 2 { String::from_str(",") } else { String::new() };
    t.append("  ");
    t.append(record_json);
    t.append("\n");
    t
}

/// The log file after the records `records` were written one by one.
pub open spec fn log_after(records: Seq<Seq<char>>) -> Seq<char>
    decreases records.len(),
{
    if records.len() == 0 {
        "[\n"@
    } else {
        let before = log_after(records.drop_last());
        before + record_piece(before.len() as int, records.last())
    }
}

/// The elements of a JSON array, one per line, separated by commas.
pub open spec fn array_elements(records: Seq<Seq<char>>) -> Seq<char>
    decreases records.len(),
{
    if records.len() == 0 {
        Seq::empty()
    } else if records.len() == 1 {
        "  "@ + records[0] + "\n"@
    } else {
        array_elements(records.drop_last()) + ","@ + "  "@ + records.last() + "\n"@
    }
}

/// A log whose records were written one by one and which was then closed
/// is a JSON array of those records, in order: the first without a comma,
/// each later one after exactly one comma.
pub proof fn law_closed_log_is_json_array(records: Seq<Seq<char>>)
    ensures
        log_after(records) + "]\n"@ == "[\n"@ + array_elements(records) + "]\n"@,
    decreases records.len(),
{
    lemma_log_after(records);
}

proof fn lemma_log_after(records: Seq<Seq<char>>)
    ensures
        log_after(records) == "[\n"@ + array_elements(records),
        log_after(records).len() > 2 <==> records.len() > 0,
    decreases records.len(),
{
    reveal_strlit("[\n");
    reveal_strlit(",");
    reveal_strlit("  ");
    reveal_strlit("\n");
    if records.len() == 0 {
        assert("[\n"@ + array_elements(records) =~= "[\n"@);
    } else {
        let rest = records.drop_last();
        lemma_log_after(rest);
        let before = log_after(rest);
        if rest.len() == 0 {
            assert(records[0] == records.last());
            assert(log_after(records) =~= "[\n"@ + array_elements(records));
        } else {
            assert(log_after(records) =~= "[\n"@ + array_elements(records));
        }
    }
}

/// `d` padded on the left with zeros to at least `width` characters.
pub open spec fn zero_padded(d: Seq<char>, width: nat) -> Seq<char> {
    if d.len() >= width {
        d
    } else {
        Seq::new((width - d.len()) as nat, |i: int| '0') + d
    }
}

/// A timestamp: the whole seconds since the Unix epoch, a point, and the
/// nanoseconds as at least nine digits.
pub open spec fn timestamp_of(secs: u64, nanos: u32) -> Seq<char> {
    decimal(secs as nat) + "."@ + zero_padded(decimal(nanos as nat), 9)
}

/// The timestamp of a record, from the time since the Unix epoch.
pub fn chrono_lite_timestamp(secs: u64, nanos: u32) -> (t: String)
    ensures
        t@ == timestamp_of(secs, nanos),
{
    let mut t = String::new();
    push_decimal(&mut t, secs);
    t.append(".");
    let mut digits = String::new();
    push_decimal(&mut digits, nanos as u64);
    let n = digits.as_str().unicode_len();
    let mut pad: usize = n;
    let ghost before = t@;
    proof {
        reveal_strlit("0");
    }
    while pad < 9
        invariant
            n == decimal(nanos as nat).len(),
            n <= pad <= 9 || (n > 9 && pad == n),
            t@ == before + Seq::new((pad - n) as nat, |i: int| '0'),
        decreases 9 - pad,
    {
        proof {
            reveal_strlit("0");
        }
        t.append("0");
        assert(t@ =~= before + Seq::new((pad + 1 - n) as nat, |i: int| '0'));
        pad = pad + 1;
    }
    t.append(digits.as_str());
    proof {
        if n >= 9 {
            assert(Seq::new((pad - n) as nat, |i: int| '0') =~= Seq::<char>::empty());
        }
    }
    assert(t@ =~= timestamp_of(secs, nanos));
    t
}

/// A timestamp is always the seconds, a point and at least nine digits of
/// nanoseconds: exactly nine when they are below one second.
pub proof fn law_timestamp_shape(secs: u64, nanos: u32)
    requires
        nanos < 1_000_000_000,
    ensures
        timestamp_of(secs, nanos).len() == decimal(secs as nat).len() + 10,
{
    reveal_with_fuel(pow10, 10);
    lemma_decimal_len_below(nanos as nat, 9);
    reveal_strlit(".");
    assert(zero_padded(decimal(nanos as nat), 9).len() == 9);
}

/// Ten to the power `k`.
pub open spec fn pow10(k: nat) -> nat
    decreases k,
{
    if k == 0 {
        1
    } else {
        10 * pow10((k - 1) as nat)
    }
}

/// A number below 10^k has at most k decimal digits.
proof fn lemma_decimal_len_below(n: nat, k: nat)
    requires
        n < pow10(k),
        k >= 1,
    ensures
        decimal(n).len() <= k,
    decreases k,
{
    if n >= 10 {
        assert(k >= 2) by {
            if k == 1 {
                assert(pow10(1) == 10 * pow10(0));
            }
        }
        assert(pow10(k) == 10 * pow10((k - 1) as nat));
        assert(n / 10 < pow10((k - 1) as nat));
        lemma_decimal_len_below(n / 10, (k - 1) as nat);
    }
}

} // verus!
