use vstd::prelude::*;
use vstd::string::StringExecFns;

verus! {

/// The integer of the nul-in-string code, chosen well above every status
/// that the native library reports.
pub const NUL_CODE: i32 = 0x10000;

/// A status reported by the native library, or one raised by this crate.
#[derive(PartialEq, Eq, Structural, Debug, Clone, Copy)]
pub enum Code {
    Success,
    EndArchive,
    NoMemory,
    BadData,
    BadArchive,
    UnknownFormat,
    EOpen,
    ECreate,
    EClose,
    ERead,
    EWrite,
    SmallBuf,
    Unknown,
    MissingPassword,
    /// A reference record was to be unpacked without the file it refers to.
    EReference,
    BadPassword,
    /// A string handed to the native library held a nul character.
    ENul,
}

impl Code {
    /// The integer that stands for this code in the native interface.
    pub open spec fn raw(self) -> i32 {
        match self {
            Code::Success => 0,
            Code::EndArchive => 10,
            Code::NoMemory => 11,
            Code::BadData => 12,
            Code::BadArchive => 13,
            Code::UnknownFormat => 14,
            Code::EOpen => 15,
            Code::ECreate => 16,
            Code::EClose => 17,
            Code::ERead => 18,
            Code::EWrite => 19,
            Code::SmallBuf => 20,
            Code::Unknown => 21,
            Code::MissingPassword => 22,
            Code::EReference => 23,
            Code::BadPassword => 24,
            Code::ENul => NUL_CODE,
        }
    }

    /// Whether the code comes from the native library rather than this crate.
    pub open spec fn is_native(self) -> bool {
        self != Code::ENul
    }

    /// The code whose integer is `code`, if there is one.
    pub open spec fn classify(code: i32) -> Option<Code> {
        match code {
            0 => Some(Code::Success),
            10 => Some(Code::EndArchive),
            11 => Some(Code::NoMemory),
            12 => Some(Code::BadData),
            13 => Some(Code::BadArchive),
            14 => Some(Code::UnknownFormat),
            15 => Some(Code::EOpen),
            16 => Some(Code::ECreate),
            17 => Some(Code::EClose),
            18 => Some(Code::ERead),
            19 => Some(Code::EWrite),
            20 => Some(Code::SmallBuf),
            21 => Some(Code::Unknown),
            22 => Some(Code::MissingPassword),
            23 => Some(Code::EReference),
            24 => Some(Code::BadPassword),
            NUL_CODE => Some(Code::ENul),
            _ => None,
        }
    }

    /// Looks up the code that the integer `code` stands for; `None` when it
    /// stands for none.
    pub fn from(code: i32) -> (r: Option<Code>)
        ensures
            r == Code::classify(code),
            match r {
                Some(c) => c.raw() == code,
                None => forall|c: Code| c.raw() != code,
            },
    {
        let r = match code {
            0 => Some(Code::Success),
            10 => Some(Code::EndArchive),
            11 => Some(Code::NoMemory),
            12 => Some(Code::BadData),
            13 => Some(Code::BadArchive),
            14 => Some(Code::UnknownFormat),
            15 => Some(Code::EOpen),
            16 => Some(Code::ECreate),
            17 => Some(Code::EClose),
            18 => Some(Code::ERead),
            19 => Some(Code::EWrite),
            20 => Some(Code::SmallBuf),
            21 => Some(Code::Unknown),
            22 => Some(Code::MissingPassword),
            23 => Some(Code::EReference),
            24 => Some(Code::BadPassword),
            NUL_CODE => Some(Code::ENul),
            _ => None,
        };
        proof {
            lemma_classify_sound(code);
        }
        r
    }

    /// The integer that stands for this code.
    pub fn to_i32(self) -> (r: i32)
        ensures
            r == self.raw(),
    {
        match self {
            Code::Success => 0,
            Code::EndArchive => 10,
            Code::NoMemory => 11,
            Code::BadData => 12,
            Code::BadArchive => 13,
            Code::UnknownFormat => 14,
            Code::EOpen => 15,
            Code::ECreate => 16,
            Code::EClose => 17,
            Code::ERead => 18,
            Code::EWrite => 19,
            Code::SmallBuf => 20,
            Code::Unknown => 21,
            Code::MissingPassword => 22,
            Code::EReference => 23,
            Code::BadPassword => 24,
            Code::ENul => NUL_CODE,
        }
    }
}

/// The stage of work on an archive in which a status was seen.
#[derive(PartialEq, Eq, Structural, Debug, Clone, Copy)]
pub enum When {
    Open,
    Read,
    Process,
}

impl When {
    /// The phase's name as it is written in diagnostics.
    pub open spec fn name_of(self) -> Seq<char> {
        match self {
            When::Open => "Open"@,
            When::Read => "Read"@,
            When::Process => "Process"@,
        }
    }

    /// The phase's name.
    pub fn name(self) -> (r: &'static str)
        ensures
            r@ == self.name_of(),
    {
        match self {
            When::Open => "Open",
            When::Read => "Read",
            When::Process => "Process",
        }
    }
}

impl Code {
    /// The code's name as it is written in diagnostics.
    pub open spec fn name_of(self) -> Seq<char> {
        match self {
            Code::Success => "Success"@,
            Code::EndArchive => "EndArchive"@,
            Code::NoMemory => "NoMemory"@,
            Code::BadData => "BadData"@,
            Code::BadArchive => "BadArchive"@,
            Code::UnknownFormat => "UnknownFormat"@,
            Code::EOpen => "EOpen"@,
            Code::ECreate => "ECreate"@,
            Code::EClose => "EClose"@,
            Code::ERead => "ERead"@,
            Code::EWrite => "EWrite"@,
            Code::SmallBuf => "SmallBuf"@,
            Code::Unknown => "Unknown"@,
            Code::MissingPassword => "MissingPassword"@,
            Code::EReference => "EReference"@,
            Code::BadPassword => "BadPassword"@,
            Code::ENul => "ENul"@,
        }
    }

    /// The code's name.
    pub fn name(self) -> (r: &'static str)
        ensures
            r@ == self.name_of(),
    {
        match self {
            Code::Success => "Success",
            Code::EndArchive => "EndArchive",
            Code::NoMemory => "NoMemory",
            Code::BadData => "BadData",
            Code::BadArchive => "BadArchive",
            Code::UnknownFormat => "UnknownFormat",
            Code::EOpen => "EOpen",
            Code::ECreate => "ECreate",
            Code::EClose => "EClose",
            Code::ERead => "ERead",
            Code::EWrite => "EWrite",
            Code::SmallBuf => "SmallBuf",
            Code::Unknown => "Unknown",
            Code::MissingPassword => "MissingPassword",
            Code::EReference => "EReference",
            Code::BadPassword => "BadPassword",
            Code::ENul => "ENul",
        }
    }
}

/// What a failure with `code` during `when` is called, for a reader. Pairs
/// with a message of their own come first; the rest fall back on the code.
pub open spec fn message_of(code: Code, when: When) -> Seq<char> {
    match (code, when) {
        (Code::BadData, When::Open) => "Archive header damaged"@,
        (Code::BadData, When::Read) => "File header damaged"@,
        (Code::BadData, When::Process) => "File CRC error"@,
        (Code::UnknownFormat, When::Open) => "Unknown encryption"@,
        (Code::EOpen, When::Process) => "Could not open next volume"@,
        (Code::UnknownFormat, _) => "Unknown archive format"@,
        (Code::EOpen, _) => "Could not open archive"@,
        (Code::NoMemory, _) => "Not enough memory"@,
        (Code::BadArchive, _) => "Not a RAR archive"@,
        (Code::ECreate, _) => "Could not create file"@,
        (Code::EClose, _) => "Could not close file"@,
        (Code::ERead, _) => "Read error"@,
        (Code::EWrite, _) => "Write error"@,
        (Code::SmallBuf, _) => "Archive comment was truncated to fit to buffer"@,
        (Code::MissingPassword, _) => "Password for encrypted archive not specified"@,
        (Code::EReference, _) => "Cannot open file source for reference record"@,
        (Code::BadPassword, _) => "Wrong password was specified"@,
        (Code::Unknown, _) => "Unknown error"@,
        (Code::EndArchive, _) => "Archive end"@,
        (Code::Success, _) => "Success"@,
        (Code::ENul, _) => "Nul error (nul found in String)"@,
    }
}

/// Every pair of code and phase has a message, and none is empty.
pub proof fn lemma_message_nonempty(code: Code, when: When)
    ensures
        message_of(code, when).len() > 0,
{
    match (code, when) {
        (Code::BadData, When::Open) => reveal_strlit("Archive header damaged"),
        (Code::BadData, When::Read) => reveal_strlit("File header damaged"),
        (Code::BadData, When::Process) => reveal_strlit("File CRC error"),
        (Code::UnknownFormat, When::Open) => reveal_strlit("Unknown encryption"),
        (Code::EOpen, When::Process) => reveal_strlit("Could not open next volume"),
        (Code::UnknownFormat, _) => reveal_strlit("Unknown archive format"),
        (Code::EOpen, _) => reveal_strlit("Could not open archive"),
        (Code::NoMemory, _) => reveal_strlit("Not enough memory"),
        (Code::BadArchive, _) => reveal_strlit("Not a RAR archive"),
        (Code::ECreate, _) => reveal_strlit("Could not create file"),
        (Code::EClose, _) => reveal_strlit("Could not close file"),
        (Code::ERead, _) => reveal_strlit("Read error"),
        (Code::EWrite, _) => reveal_strlit("Write error"),
        (Code::SmallBuf, _) => reveal_strlit("Archive comment was truncated to fit to buffer"),
        (Code::MissingPassword, _) => reveal_strlit("Password for encrypted archive not specified"),
        (Code::EReference, _) => reveal_strlit("Cannot open file source for reference record"),
        (Code::BadPassword, _) => reveal_strlit("Wrong password was specified"),
        (Code::Unknown, _) => reveal_strlit("Unknown error"),
        (Code::EndArchive, _) => reveal_strlit("Archive end"),
        (Code::Success, _) => reveal_strlit("Success"),
        (Code::ENul, _) => reveal_strlit("Nul error (nul found in String)"),
    }
}

/// A failure reported by the native library, with the phase it came in.
#[derive(PartialEq, Eq, Structural)]
pub struct UnrarError {
    pub code: Code,
    pub when: When,
}

impl UnrarError {
    /// The failure of `code` seen during `when`.
    pub fn from(code: Code, when: When) -> (r: UnrarError)
        ensures
            r.code == code,
            r.when == when,
    {
        UnrarError { code: code, when: when }
    }

    /// The message for this failure.
    pub fn message(&self) -> (r: &'static str)
        ensures
            r@ == message_of(self.code, self.when),
            r@.len() > 0,
    {
        proof {
            lemma_message_nonempty(self.code, self.when);
        }
        match (self.code, self.when) {
            (Code::BadData, When::Open) => "Archive header damaged",
            (Code::BadData, When::Read) => "File header damaged",
            (Code::BadData, When::Process) => "File CRC error",
            (Code::UnknownFormat, When::Open) => "Unknown encryption",
            (Code::EOpen, When::Process) => "Could not open next volume",
            (Code::UnknownFormat, _) => "Unknown archive format",
            (Code::EOpen, _) => "Could not open archive",
            (Code::NoMemory, _) => "Not enough memory",
            (Code::BadArchive, _) => "Not a RAR archive",
            (Code::ECreate, _) => "Could not create file",
            (Code::EClose, _) => "Could not close file",
            (Code::ERead, _) => "Read error",
            (Code::EWrite, _) => "Write error",
            (Code::SmallBuf, _) => "Archive comment was truncated to fit to buffer",
            (Code::MissingPassword, _) => "Password for encrypted archive not specified",
            (Code::EReference, _) => "Cannot open file source for reference record",
            (Code::BadPassword, _) => "Wrong password was specified",
            (Code::Unknown, _) => "Unknown error",
            (Code::EndArchive, _) => "Archive end",
            (Code::Success, _) => "Success",
            (Code::ENul, _) => "Nul error (nul found in String)",
        }
    }

    /// The message for this failure, as text for a user.
    pub fn to_string(&self) -> (r: String)
        ensures
            r@ == message_of(self.code, self.when),
    {
        String::from_str(self.message())
    }

    /// The form for logs: code and phase by name, then the message.
    pub open spec fn diagnostic_of(self) -> Seq<char> {
        self.code.name_of() + "@"@ + self.when.name_of() + " ("@ + message_of(self.code, self.when)
            + ")"@
    }

    /// Renders code, phase and message for logs, as in `BadData@Open (Archive header damaged)`.
    pub fn debug_string(&self) -> (r: String)
        ensures
            r@ == self.diagnostic_of(),
    {
        let mut s = String::from_str(self.code.name());
        s.append("@");
        s.append(self.when.name());
        s.append(" (");
        s.append(self.message());
        s.append(")");
        s
    }
}

/// The result of an operation on an archive.
pub type UnrarResult<T> = Result<T, UnrarError>;

/// Two failures are the same exactly when code and phase both agree.
pub proof fn lemma_error_eq(a: UnrarError, b: UnrarError)
    ensures
        (a == b) <==> (a.code == b.code && a.when == b.when),
{
}

/// Every code is found again from its own integer.
pub proof fn lemma_classify_round_trip(c: Code)
    ensures
        Code::classify(c.raw()) == Some(c),
{
}

/// Classification finds a code only from that code's own integer, and finds
/// none from an integer that stands for no code.
pub proof fn lemma_classify_sound(code: i32)
    ensures
        match Code::classify(code) {
            Some(c) => c.raw() == code,
            None => forall|c: Code| c.raw() != code,
        },
{
}

/// The decimal digit `d`.
pub open spec fn digit_of(d: nat) -> char {
    if d == 0 { '0' }
    else if d == 1 { '1' }
    else if d == 2 { '2' }
    else if d == 3 { '3' }
    else if d == 4 { '4' }
    else if d == 5 { '5' }
    else if d == 6 { '6' }
    else if d == 7 { '7' }
    else if d == 8 { '8' }
    else { '9' }
}

/// `n` written in decimal, without leading zeros.
pub open spec fn decimal_of(n: nat) -> Seq<char>
    decreases n,
{
    if n < 10 {
        seq![digit_of(n)]
    } else {
        decimal_of(n / 10).push(digit_of(n % 10))
    }
}

fn digit_str(d: usize) -> (r: &'static str)
    requires
        d < 10,
    ensures
        r@ == seq![digit_of(d as nat)],
{
    let r = if d == 0 { "0" }
    else if d == 1 { "1" }
    else if d == 2 { "2" }
    else if d == 3 { "3" }
    else if d == 4 { "4" }
    else if d == 5 { "5" }
    else if d == 6 { "6" }
    else if d == 7 { "7" }
    else if d == 8 { "8" }
    else { "9" };
    proof {
        reveal_strlit("0");
        reveal_strlit("1");
        reveal_strlit("2");
        reveal_strlit("3");
        reveal_strlit("4");
        reveal_strlit("5");
        reveal_strlit("6");
        reveal_strlit("7");
        reveal_strlit("8");
        reveal_strlit("9");
        assert(r@ =~= seq![digit_of(d as nat)]);
    }
    r
}

/// Writes `n` in decimal.
pub fn decimal_string(n: usize) -> (r: String)
    ensures
        r@ == decimal_of(n as nat),
    decreases n,
{
    if n < 10 {
        String::from_str(digit_str(n))
    } else {
        let mut s = decimal_string(n / 10);
        s.append(digit_str(n % 10));
        proof {
            assert(s@ =~= decimal_of(n as nat));
        }
        s
    }
}

/// A string meant for the native library held a nul character at the
/// index it carries.
#[derive(Debug, PartialEq, Eq, Structural, Clone, Copy)]
pub struct NulError(pub usize);

impl NulError {
    /// The error for a nul found at index `position`.
    pub fn from_position(position: usize) -> (r: NulError)
        ensures
            r.0 == position,
    {
        NulError(position)
    }

    /// The index at which the nul was found.
    pub fn position(&self) -> (r: usize)
        ensures
            r == self.0,
    {
        self.0
    }

    /// A short description of the error.
    pub fn description(&self) -> (r: &'static str)
        ensures
            r@ == "nul value found"@,
    {
        "nul value found"
    }

    /// The message for this error.
    pub open spec fn message_of(self) -> Seq<char> {
        "nul value found at position: "@ + decimal_of(self.0 as nat)
    }

    /// The message for this error, as text for a user.
    pub fn to_string(&self) -> (r: String)
        ensures
            r@ == self.message_of(),
    {
        let mut s = String::from_str("nul value found at position: ");
        let d = decimal_string(self.0);
        s.append(d.as_str());
        s
    }
}

} // verus!
