//! The mod's log history and how the mod's web API answers.
use vstd::prelude::*;
use crate::plugins::plugin_info::PluginInfoError;
use crate::plugins::plugin_manager::{PluginInstallError, PluginManagerError};
use crate::text::copy_string;

verus! {

/// A log record as the mod publishes it.
pub struct LogRecord {
    pub message: String,
    pub target: String,
    pub level: String,
    pub timestamp: String,
    pub plugin: Option<String>,
}

/// The characters of each text field of a record, in field order.
pub open spec fn record_view(r: LogRecord) -> (Seq<char>, Seq<char>, Seq<char>, Seq<char>, Option<Seq<char>>) {
    (r.message@, r.target@, r.level@, r.timestamp@, match r.plugin {
        Some(p) => Some(p@),
        None => None,
    })
}

/// A copy of a record, field by field.
pub fn copy_record(r: &LogRecord) -> (c: LogRecord)
    ensures
        record_view(c) == record_view(*r),
{
    let plugin = match &r.plugin {
        Some(p) => Some(copy_string(p)),
        None => None,
    };
    LogRecord {
        message: copy_string(&r.message),
        target: copy_string(&r.target),
        level: copy_string(&r.level),
        timestamp: copy_string(&r.timestamp),
        plugin,
    }
}

/// Every record the mod logged, each with the id it was published under.
///
/// A record's id is its position in the history: the first record has id 0 and
/// each later one the next number.
pub struct LogHistory {
    records: Vec<(u64, LogRecord)>,
}

impl LogHistory {
    #[verifier::type_invariant]
    spec fn ids_are_positions(self) -> bool {
        forall|i: int| 0 <= i < self.records@.len() ==> #[trigger] self.records@[i].0 == i
    }

    /// The records, in the order they were logged.
    pub closed spec fn records(self) -> Seq<LogRecord> {
        self.records@.map_values(|e: (u64, LogRecord)| e.1)
    }

    /// The number of records.
    pub closed spec fn spec_len(self) -> nat {
        self.records@.len()
    }

    /// An empty history.
    pub fn new() -> (h: LogHistory)
        ensures
            h.spec_len() == 0,
            h.records() == Seq::<LogRecord>::empty(),
    {
        LogHistory { records: Vec::new() }
    }

    /// The number of records logged so far, which is also the id the next record gets.
    pub fn len(&self) -> (n: u64)
        requires
            self.spec_len() <= u64::MAX,
        ensures
            n == self.spec_len(),
    {
        self.records.len() as u64
    }

    /// Logs a record: it gets the next id, which is returned.
    pub fn append(&mut self, record: LogRecord) -> (id: u64)
        requires
            old(self).spec_len() < u64::MAX,
        ensures
            id == old(self).spec_len(),
            final(self).spec_len() == old(self).spec_len() + 1,
            final(self).records() == old(self).records().push(record),
    {
        proof { use_type_invariant(&*self); }
        let id = self.records.len() as u64;
        let mut records: Vec<(u64, LogRecord)> = Vec::new();
        std::mem::swap(&mut records, &mut self.records);
        let ghost before = records@;
        records.push((id, record));
        proof {
            assert(records@.map_values(|e: (u64, LogRecord)| e.1) =~= before.map_values(
                |e: (u64, LogRecord)| e.1,
            ).push(record));
        }
        self.records = records;
        id
    }

    /// The id and a copy of the record at `index`.
    pub fn entry(&self, index: usize) -> (e: (u64, LogRecord))
        requires
            index < self.spec_len(),
        ensures
            e.0 == index,
            record_view(e.1) == record_view(self.records()[index as int]),
    {
        proof { use_type_invariant(self); }
        let (id, record) = &self.records[index];
        (*id, copy_record(record))
    }

    /// What a new log consumer is handed first: the number of records it saw, which is
    /// also the id of the first record it is sent afterwards, and a copy of every record
    /// with its id, in order.
    pub fn snapshot(&self) -> (s: (u64, Vec<(u64, LogRecord)>))
        requires
            self.spec_len() <= u64::MAX,
        ensures
            s.0 == self.spec_len(),
            s.1@.len() == self.spec_len(),
            forall|i: int|
                0 <= i < s.1@.len() ==> #[trigger] s.1@[i].0 == i && record_view(s.1@[i].1)
                    == record_view(self.records()[i]),
    {
        proof { use_type_invariant(self); }
        let mut copy: Vec<(u64, LogRecord)> = Vec::new();
        let mut i: usize = 0;
        while i < self.records.len()
            invariant
                i <= self.records@.len(),
                self.spec_len() == self.records@.len(),
                copy@.len() == i,
                forall|j: int|
                    0 <= j < i ==> #[trigger] copy@[j].0 == j && record_view(copy@[j].1)
                        == record_view(self.records()[j]),
            decreases self.records@.len() - i,
        {
            let e = self.entry(i);
            copy.push(e);
            i = i + 1;
        }
        (self.records.len() as u64, copy)
    }
}

/// Whether a published record with id `id` goes to a consumer whose copy of the history
/// holds `history_length` records.
pub open spec fn forwarded(id: u64, history_length: u64) -> bool {
    id >= history_length
}

/// Whether a consumer whose copy of the history holds `history_length` records (the ids
/// `0` to `history_length - 1`) is sent the published record with id `id`: exactly the
/// records it does not have yet.
pub fn should_forward(id: u64, history_length: u64) -> (r: bool)
    ensures
        r == forwarded(id, history_length),
{
    id >= history_length
}

/// Every record reaches a consumer exactly once: the records of its copy of the history,
/// in id order, and every later record as it is published; none is sent twice and none is
/// left out.
pub proof fn lemma_every_record_once(history: LogHistory, history_length: u64, id: u64)
    requires
        history_length == history.spec_len(),
    ensures
        (id < history.spec_len()) != forwarded(id, history_length),
{
}

/// HTTP status: the request succeeded.
pub const STATUS_OK: u16 = 200;
/// HTTP status: the request succeeded and there is nothing to answer.
pub const STATUS_NO_CONTENT: u16 = 204;
/// HTTP status: the request itself was wrong.
pub const STATUS_BAD_REQUEST: u16 = 400;
/// HTTP status: the named thing doesn't exist.
pub const STATUS_NOT_FOUND: u16 = 404;
/// HTTP status: the mod failed.
pub const STATUS_INTERNAL_SERVER_ERROR: u16 = 500;

/// The status with which a failure to read a plugin package's info file is answered:
/// a package without info file or with a malformed one is the sender's fault.
pub fn plugin_info_error_status(e: &PluginInfoError) -> (status: u16)
    ensures
        status == (match e {
            PluginInfoError::FileNotFound => STATUS_BAD_REQUEST,
            PluginInfoError::Format(_) => STATUS_BAD_REQUEST,
            PluginInfoError::Other(_) => STATUS_INTERNAL_SERVER_ERROR,
        }),
{
    match e {
        PluginInfoError::FileNotFound => STATUS_BAD_REQUEST,
        PluginInfoError::Format(_) => STATUS_BAD_REQUEST,
        PluginInfoError::Other(_) => STATUS_INTERNAL_SERVER_ERROR,
    }
}

/// The status with which enabling, disabling, reloading or uninstalling a
/// plugin is answered.
pub fn plugin_operation_status<T>(result: &Result<T, PluginManagerError>) -> (status: u16)
    ensures
        status == (match result {
            Ok(_) => STATUS_NO_CONTENT,
            Err(PluginManagerError::PluginNotFound) => STATUS_NOT_FOUND,
            Err(_) => STATUS_INTERNAL_SERVER_ERROR,
        }),
{
    match result {
        Ok(_) => STATUS_NO_CONTENT,
        Err(PluginManagerError::PluginNotFound) => STATUS_NOT_FOUND,
        Err(_) => STATUS_INTERNAL_SERVER_ERROR,
    }
}

/// The status with which installing a plugin package is answered: a package
/// that is already installed, has an invalid name, a bad info file or a plugin
/// that fails at once is the sender's fault; a failed copy is the mod's.
pub fn install_status(result: &Result<(), PluginInstallError>) -> (status: u16)
    ensures
        status == (match result {
            Ok(_) => STATUS_OK,
            Err(PluginInstallError::Copy(_)) => STATUS_INTERNAL_SERVER_ERROR,
            Err(_) => STATUS_BAD_REQUEST,
        }),
{
    match result {
        Ok(_) => STATUS_OK,
        Err(PluginInstallError::AlreadyInstalled) => STATUS_BAD_REQUEST,
        Err(PluginInstallError::InvalidName) => STATUS_BAD_REQUEST,
        Err(PluginInstallError::InfoFile(_)) => STATUS_BAD_REQUEST,
        Err(PluginInstallError::Plugin(_)) => STATUS_BAD_REQUEST,
        Err(PluginInstallError::Copy(_)) => STATUS_INTERNAL_SERVER_ERROR,
    }
}

/// Why a hexadecimal address could not be read; the kinds `i64::from_str_radix` reports.
#[derive(Debug, Clone, Copy, PartialEq, Eq, Structural)]
pub enum HexAddressError {
    /// The text is empty.
    Empty,
    /// A character is no hexadecimal digit, or the text is only a sign.
    InvalidDigit,
    /// The number is greater than `i64::MAX`.
    PosOverflow,
    /// The number is less than `i64::MIN`.
    NegOverflow,
}

/// The value of the hexadecimal digit `c`, if it is one (either case).
pub open spec fn hex_digit(c: char) -> Option<int> {
    if '0' <= c <= '9' {
        Some(c as int - '0' as int)
    } else if 'a' <= c <= 'f' {
        Some(c as int - 'a' as int + 10)
    } else if 'A' <= c <= 'F' {
        Some(c as int - 'A' as int + 10)
    } else {
        None
    }
}

/// The number the hexadecimal digits `digits` stand for, most significant first.
pub open spec fn hex_value(digits: Seq<char>) -> int
    decreases digits.len(),
{
    if digits.len() == 0 {
        0
    } else {
        hex_value(digits.drop_last()) * 16 + match hex_digit(digits.last()) {
            Some(d) => d,
            None => 0,
        }
    }
}

/// The greatest magnitude a number of the given sign can have in an `i64`.
pub open spec fn magnitude_bound(negative: bool) -> int {
    if negative {
        0x8000_0000_0000_0000
    } else {
        0x7fff_ffff_ffff_ffff
    }
}

/// Reads the digits `digits` from position `i` on, as `i64::from_str_radix` does: the first
/// character that is no digit, or the first digit after which the magnitude leaves the
/// range, decides the error; otherwise the magnitude of all digits is the result.
pub open spec fn scan_hex(digits: Seq<char>, negative: bool, i: int) -> Result<int, HexAddressError>
    decreases digits.len() - i,
{
    if i < 0 || i >= digits.len() {
        Ok(hex_value(digits))
    } else if hex_digit(digits[i]) is None {
        Err(HexAddressError::InvalidDigit)
    } else if hex_value(digits.take(i + 1)) > magnitude_bound(negative) {
        Err(if negative { HexAddressError::NegOverflow } else { HexAddressError::PosOverflow })
    } else {
        scan_hex(digits, negative, i + 1)
    }
}

/// The number the text `text` stands for in hexadecimal, with an optional sign, or why it
/// stands for none (`i64::from_str_radix` with radix 16).
pub open spec fn parse_hex(text: Seq<char>) -> Result<int, HexAddressError> {
    if text.len() == 0 {
        Err(HexAddressError::Empty)
    } else {
        let negative = text[0] == '-';
        let digits = if text[0] == '-' || text[0] == '+' { text.skip(1) } else { text };
        if digits.len() == 0 {
            Err(HexAddressError::InvalidDigit)
        } else {
            match scan_hex(digits, negative, 0) {
                Ok(m) => Ok(if negative { -m } else { m }),
                Err(e) => Err(e),
            }
        }
    }
}

/// A text of one character is read as `i64::from_str_radix(text, 16)` reads it: each of
/// `0` to `9` is the number it shows, `a` to `f` and `A` to `F` are 10 to 15, and every other
/// character (a sign alone among them) is refused as an invalid digit.
pub proof fn lemma_single_hex_digit(c: char)
    ensures
        '0' <= c <= '9' ==> parse_hex(seq![c]) == Ok::<int, HexAddressError>(c as int - 48),
        'a' <= c <= 'f' ==> parse_hex(seq![c]) == Ok::<int, HexAddressError>(c as int - 87),
        'A' <= c <= 'F' ==> parse_hex(seq![c]) == Ok::<int, HexAddressError>(c as int - 55),
        !('0' <= c <= '9' || 'a' <= c <= 'f' || 'A' <= c <= 'F') ==> parse_hex(seq![c])
            == Err::<int, HexAddressError>(HexAddressError::InvalidDigit),
{
    let text = seq![c];
    assert(text.take(1) =~= text);
    assert(text.drop_last() =~= Seq::<char>::empty());
    assert(hex_value(Seq::<char>::empty()) == 0);
    if c == '-' || c == '+' {
        assert(text.skip(1) =~= Seq::<char>::empty());
    } else if let Some(d) = hex_digit(c) {
        assert(hex_value(text) == d);
        assert(scan_hex(text, false, 1) == Ok::<int, HexAddressError>(hex_value(text)));
        assert(scan_hex(text, false, 0) == Ok::<int, HexAddressError>(d));
    }
}

/// Appending the digit `c` of value `v` (`0` to `9`, `a` to `f` or `A` to `F` for 10 to 15)
/// to a text of digits that reads as the number `m` makes it read as `16 * m + v`, while that
/// stays in the range of an `i64`: the text is read digit by digit, most significant first.
pub proof fn lemma_hex_appended_digit(digits: Seq<char>, c: char, v: int, m: int)
    requires
        digits.len() > 0,
        digits[0] != '-' && digits[0] != '+',
        parse_hex(digits) == Ok::<int, HexAddressError>(m),
        ('0' <= c <= '9' && v == c as int - 48) || ('a' <= c <= 'f' && v == c as int - 87) || ('A' <= c <= 'F'
            && v == c as int - 55),
        16 * m + v <= 0x7fff_ffff_ffff_ffff,
    ensures
        parse_hex(digits.push(c)) == Ok::<int, HexAddressError>(16 * m + v),
{
    let t = digits.push(c);
    assert(t[0] == digits[0]);
    lemma_scan_hex_ok(digits, 0);
    assert(t.drop_last() =~= digits);
    assert(hex_value(t) == 16 * m + v);
    lemma_scan_hex_push(digits, c, 0);
}

/// A leading `+` changes nothing, and a leading `-` negates: when the digits `digits` read as
/// `m`, `+` followed by them reads as `m` and `-` followed by them as `-m`.
pub proof fn lemma_hex_sign(digits: Seq<char>, m: int)
    requires
        digits.len() > 0,
        digits[0] != '-' && digits[0] != '+',
        parse_hex(digits) == Ok::<int, HexAddressError>(m),
    ensures
        parse_hex(seq!['+'] + digits) == Ok::<int, HexAddressError>(m),
        parse_hex(seq!['-'] + digits) == Ok::<int, HexAddressError>(-m),
{
    lemma_scan_hex_ok(digits, 0);
    assert((seq!['+'] + digits).skip(1) =~= digits);
    assert((seq!['-'] + digits).skip(1) =~= digits);
    assert((seq!['+'] + digits)[0] == '+');
    assert((seq!['-'] + digits)[0] == '-');
    lemma_scan_hex_ok_negative(digits, 0);
}

/// Digits that read within the range of a positive `i64` also read, as the magnitude of a
/// negative number, to the same value.
proof fn lemma_scan_hex_ok_negative(digits: Seq<char>, i: int)
    requires
        0 <= i,
        forall|j: int| i <= j < digits.len() ==> #[trigger] hex_digit(digits[j]) is Some
            && hex_value(digits.take(j + 1)) <= magnitude_bound(false),
    ensures
        scan_hex(digits, true, i) == Ok::<int, HexAddressError>(hex_value(digits)),
    decreases digits.len() - i,
{
    if i < digits.len() {
        assert(hex_digit(digits[i]) is Some);
        lemma_scan_hex_ok_negative(digits, i + 1);
    }
}

/// Reading digits that all are digits and stay in range from position `i` on gives the
/// value of all of them.
proof fn lemma_scan_hex_ok(digits: Seq<char>, i: int)
    requires
        0 <= i,
        scan_hex(digits, false, i) is Ok,
    ensures
        forall|j: int| i <= j < digits.len() ==> #[trigger] hex_digit(digits[j]) is Some
            && hex_value(digits.take(j + 1)) <= magnitude_bound(false),
        scan_hex(digits, false, i) == Ok::<int, HexAddressError>(hex_value(digits)),
    decreases digits.len() - i,
{
    if i < digits.len() {
        lemma_scan_hex_ok(digits, i + 1);
    }
}

/// Reading `digits` followed by `c` from position `i` on, when `digits` read well from
/// there and the whole stays in range.
proof fn lemma_scan_hex_push(digits: Seq<char>, c: char, i: int)
    requires
        0 <= i <= digits.len(),
        forall|j: int| i <= j < digits.len() ==> #[trigger] hex_digit(digits[j]) is Some
            && hex_value(digits.take(j + 1)) <= magnitude_bound(false),
        hex_digit(c) is Some,
        hex_value(digits.push(c)) <= magnitude_bound(false),
    ensures
        scan_hex(digits.push(c), false, i) == Ok::<int, HexAddressError>(hex_value(digits.push(c))),
    decreases digits.len() - i,
{
    let t = digits.push(c);
    if i < digits.len() {
        assert(t[i] == digits[i]);
        assert(t.take(i + 1) =~= digits.take(i + 1));
        assert(hex_digit(t[i]) is Some);
        assert(hex_value(t.take(i + 1)) <= magnitude_bound(false));
        lemma_scan_hex_push(digits, c, i + 1);
        assert(scan_hex(t, false, i) == scan_hex(t, false, i + 1));
    } else {
        assert(t.take(i + 1) =~= t);
        assert(t[i] == c);
        assert(scan_hex(t, false, i + 1) == Ok::<int, HexAddressError>(hex_value(t)));
        assert(scan_hex(t, false, i) == scan_hex(t, false, i + 1));
    }
}

/// The value of the hexadecimal digit `c`, if it is one.
fn hex_digit_value(c: char) -> (r: Option<u64>)
    ensures
        match hex_digit(c) {
            Some(d) => r == Some(d as u64),
            None => r is None,
        },
{
    if '0' <= c && c <= '9' {
        Some((c as u32 - '0' as u32) as u64)
    } else if 'a' <= c && c <= 'f' {
        Some((c as u32 - 'a' as u32 + 10) as u64)
    } else if 'A' <= c && c <= 'F' {
        Some((c as u32 - 'A' as u32 + 10) as u64)
    } else {
        None
    }
}

/// Reads the address a request gives in hexadecimal, as `i64::from_str_radix` with radix 16.
#[verifier::spinoff_prover]
pub fn parse_hex_address(text: &str) -> (r: Result<i64, HexAddressError>)
    ensures
        match r {
            Ok(v) => parse_hex(text@) == Ok::<int, HexAddressError>(v as int),
            Err(e) => parse_hex(text@) == Err::<int, HexAddressError>(e),
        },
{
    let n = text.unicode_len();
    if n == 0 {
        return Err(HexAddressError::Empty);
    }
    let first = text.get_char(0);
    let negative = first == '-';
    let start: usize = if first == '-' || first == '+' { 1 } else { 0 };
    let ghost digits = if first == '-' || first == '+' { text@.skip(1) } else { text@ };
    assert(digits =~= text@.skip(start as int));
    if start == n {
        return Err(HexAddressError::InvalidDigit);
    }
    let bound: u64 = if negative { 0x8000_0000_0000_0000u64 } else { 0x7fff_ffff_ffff_ffffu64 };
    let mut magnitude: u64 = 0;
    let mut i: usize = start;
    assert(digits.take(0) =~= Seq::<char>::empty());
    while i < n
        invariant
            n == text@.len(),
            start <= i <= n,
            digits == text@.skip(start as int),
            bound == magnitude_bound(negative),
            magnitude == hex_value(digits.take(i - start)),
            magnitude <= bound,
            scan_hex(digits, negative, 0) == scan_hex(digits, negative, i - start),
            text@.len() > 0,
            negative == (text@[0] == '-'),
            digits == (if text@[0] == '-' || text@[0] == '+' { text@.skip(1) } else { text@ }),
            digits.len() > 0,
        decreases n - i,
    {
        let k: usize = i - start;
        let c = text.get_char(i);
        assert(digits[k as int] == c);
        let d = match hex_digit_value(c) {
            Some(d) => d,
            None => {
                assert(scan_hex(digits, negative, k as int) == Err::<int, HexAddressError>(
                    HexAddressError::InvalidDigit,
                ));
                return Err(HexAddressError::InvalidDigit);
            },
        };
        assert(digits.take(k + 1).drop_last() =~= digits.take(k as int));
        assert(hex_value(digits.take(k + 1)) == magnitude * 16 + d);
        let next: u128 = magnitude as u128 * 16 + d as u128;
        if next > bound as u128 {
            let e = if negative { HexAddressError::NegOverflow } else { HexAddressError::PosOverflow };
            assert(scan_hex(digits, negative, k as int) == Err::<int, HexAddressError>(e));
            return Err(e);
        }
        magnitude = next as u64;
        i = i + 1;
    }
    assert(digits.take(digits.len() as int) =~= digits);
    if negative {
        if magnitude == 0x8000_0000_0000_0000u64 {
            Ok(i64::MIN)
        } else {
            Ok(-(magnitude as i64))
        }
    } else {
        Ok(magnitude as i64)
    }
}

/// The text with which a hexadecimal address is refused, as `ParseIntError` renders it.
pub open spec fn hex_error_text(e: HexAddressError) -> Seq<char> {
    match e {
        HexAddressError::Empty => "cannot parse integer from empty string"@,
        HexAddressError::InvalidDigit => "invalid digit found in string"@,
        HexAddressError::PosOverflow => "number too large to fit in target type"@,
        HexAddressError::NegOverflow => "number too small to fit in target type"@,
    }
}

impl HexAddressError {
    /// The text with which the address is refused.
    pub fn message(&self) -> (r: &'static str)
        ensures
            r@ == hex_error_text(*self),
    {
        match self {
            HexAddressError::Empty => "cannot parse integer from empty string",
            HexAddressError::InvalidDigit => "invalid digit found in string",
            HexAddressError::PosOverflow => "number too large to fit in target type",
            HexAddressError::NegOverflow => "number too small to fit in target type",
        }
    }
}

} // verus!
