//! Failure kinds shared by every operation of the crate, and the decoding of
//! the status byte an authenticator sends back with a failed command.

use vstd::prelude::*;
use vstd::string::StringExecFns;

verus! {

/// The result type of every fallible operation in this crate.
pub type FidoResult<T> = Result<T, FidoError>;

/// One row of the status table: the status byte, its symbolic name and a
/// sentence describing it.
pub type ErrorCodeEntry = (u8, &'static str, &'static str);

/// The status codes an authenticator may answer with, in ascending order of
/// their byte value.
pub const CTAP_ERROR_CODES: [ErrorCodeEntry; 48] = [
    (0x00, "CTAP1_ERR_SUCCESS", "Indicates successful response."),
    (0x01, "CTAP1_ERR_INVALID_COMMAND", "The command is not a valid CTAP command."),
    (0x02, "CTAP1_ERR_INVALID_PARAMETER", "The command included an invalid parameter."),
    (0x03, "CTAP1_ERR_INVALID_LENGTH", "Invalid message or item length."),
    (0x04, "CTAP1_ERR_INVALID_SEQ", "Invalid message sequencing."),
    (0x05, "CTAP1_ERR_TIMEOUT", "Message timed out."),
    (0x06, "CTAP1_ERR_CHANNEL_BUSY", "Channel busy."),
    (0x0a, "CTAP1_ERR_LOCK_REQUIRED", "Command requires channel lock."),
    (0x0b, "CTAP1_ERR_INVALID_CHANNEL", "Command not allowed on this cid."),
    (0x11, "CTAP2_ERR_CBOR_UNEXPECTED_TYPE", "Invalid/unexpected CBOR error."),
    (0x12, "CTAP2_ERR_INVALID_CBOR", "Error when parsing CBOR."),
    (0x14, "CTAP2_ERR_MISSING_PARAMETER", "Missing non-optional parameter."),
    (0x15, "CTAP2_ERR_LIMIT_EXCEEDED", "Limit for number of items exceeded."),
    (0x16, "CTAP2_ERR_UNSUPPORTED_EXTENSION", "Unsupported extension."),
    (0x19, "CTAP2_ERR_CREDENTIAL_EXCLUDED", "Valid credential found in the exclude list."),
    (0x21, "CTAP2_ERR_PROCESSING", "Processing (Lengthy operation is in progress)."),
    (0x22, "CTAP2_ERR_INVALID_CREDENTIAL", "Credential not valid for the authenticator."),
    (0x23, "CTAP2_ERR_USER_ACTION_PENDING", "Authentication is waiting for user interaction."),
    (0x24, "CTAP2_ERR_OPERATION_PENDING", "Processing, lengthy operation is in progress."),
    (0x25, "CTAP2_ERR_NO_OPERATIONS", "No request is pending."),
    (0x26, "CTAP2_ERR_UNSUPPORTED_ALGORITHM", "Authenticator does not support requested algorithm."),
    (0x27, "CTAP2_ERR_OPERATION_DENIED", "Not authorized for requested operation."),
    (0x28, "CTAP2_ERR_KEY_STORE_FULL", "Internal key storage is full."),
    (0x29, "CTAP2_ERR_NOT_BUSY", "Authenticator cannot cancel as it is not busy."),
    (0x2a, "CTAP2_ERR_NO_OPERATION_PENDING", "No outstanding operations."),
    (0x2b, "CTAP2_ERR_UNSUPPORTED_OPTION", "Unsupported option."),
    (0x2c, "CTAP2_ERR_INVALID_OPTION", "Not a valid option for current operation."),
    (0x2d, "CTAP2_ERR_KEEPALIVE_CANCEL", "Pending keep alive was cancelled."),
    (0x2e, "CTAP2_ERR_NO_CREDENTIALS", "No valid credentials provided."),
    (0x2f, "CTAP2_ERR_USER_ACTION_TIMEOUT", "Timeout waiting for user interaction."),
    (0x30, "CTAP2_ERR_NOT_ALLOWED", "Continuation command, such as, authenticatorGetNextAssertion not allowed."),
    (0x31, "CTAP2_ERR_PIN_INVALID", "PIN Invalid."),
    (0x32, "CTAP2_ERR_PIN_BLOCKED", "PIN Blocked."),
    (0x33, "CTAP2_ERR_PIN_AUTH_INVALID", "PIN authentication, pinAuth, verification failed."),
    (0x34, "CTAP2_ERR_PIN_AUTH_BLOCKED", "PIN authentication, pinAuth, blocked. Requires power recycle to reset."),
    (0x35, "CTAP2_ERR_PIN_NOT_SET", "No PIN has been set."),
    (0x36, "CTAP2_ERR_PIN_REQUIRED", "PIN is required for the selected operation."),
    (0x37, "CTAP2_ERR_PIN_POLICY_VIOLATION", "PIN policy violation. Currently only enforces minimum length."),
    (0x38, "CTAP2_ERR_PIN_TOKEN_EXPIRED", "pinToken expired on authenticator."),
    (0x39, "CTAP2_ERR_REQUEST_TOO_LARGE", "Authenticator cannot handle this request due to memory constraints."),
    (0x3a, "CTAP2_ERR_ACTION_TIMEOUT", "The current operation has timed out."),
    (0x3b, "CTAP2_ERR_UP_REQUIRED", "User presence is required for the requested operation."),
    (0x7f, "CTAP1_ERR_OTHER", "Other unspecified error."),
    (0xdf, "CTAP2_ERR_SPEC_LAST", "CTAP 2 spec last error."),
    (0xe0, "CTAP2_ERR_EXTENSION_FIRST", "Extension specific error."),
    (0xef, "CTAP2_ERR_EXTENSION_LAST", "Extension specific error."),
    (0xf0, "CTAP2_ERR_VENDOR_FIRST", "Vendor specific error."),
    (0xff, "CTAP2_ERR_VENDOR_LAST", "Vendor specific error."),
];

/// Whether row `i` of the table is the first one that carries `code`.
pub open spec fn is_first_entry(code: u8, i: int) -> bool {
    &&& 0 <= i < CTAP_ERROR_CODES@.len()
    &&& CTAP_ERROR_CODES@[i].0 == code
    &&& forall|j: int| 0 <= j < i ==> (#[trigger] CTAP_ERROR_CODES@[j]).0 != code
}

/// Whether some row of the table carries `code`.
pub open spec fn is_listed(code: u8) -> bool {
    exists|i: int| 0 <= i < CTAP_ERROR_CODES@.len() && (#[trigger] CTAP_ERROR_CODES@[i]).0 == code
}

/// The row that describes `code`: the first one carrying it, if any.
pub open spec fn entry_of(code: u8) -> Option<ErrorCodeEntry> {
    if exists|i: int| is_first_entry(code, i) {
        Some(CTAP_ERROR_CODES@[choose|i: int| is_first_entry(code, i)])
    } else {
        None
    }
}

/// At most one row is the first to carry a given code.
pub proof fn lemma_first_entry_unique(code: u8, i: int, j: int)
    requires
        is_first_entry(code, i),
        is_first_entry(code, j),
    ensures
        i == j,
{
    if i < j {
        assert(CTAP_ERROR_CODES@[i].0 != code);
    } else if j < i {
        assert(CTAP_ERROR_CODES@[j].0 != code);
    }
}

/// The character that stands for the value `digit` in lower-case hexadecimal.
pub open spec fn hex_char(digit: u8) -> char
    recommends
        digit < 16,
{
    if digit < 10 {
        (0x30 + digit) as char
    } else {
        (0x61 + digit - 10) as char
    }
}

/// A byte in lower-case hexadecimal, without leading zero.
pub open spec fn lower_hex(byte: u8) -> Seq<char> {
    if byte < 16 {
        seq![hex_char(byte)]
    } else {
        seq![hex_char(byte / 16), hex_char(byte % 16)]
    }
}

fn hex_digit(digit: u8) -> (text: &'static str)
    requires
        digit < 16,
    ensures
        text@ == seq![hex_char(digit)],
{
    proof {
        reveal_strlit("0");
        reveal_strlit("1");
        reveal_strlit("2");
        reveal_strlit("3");
        reveal_strlit("4");
        reveal_strlit("5");
        reveal_strlit("6");
        reveal_strlit("7");
        reveal_strlit("8");
        reveal_strlit("9");
        reveal_strlit("a");
        reveal_strlit("b");
        reveal_strlit("c");
        reveal_strlit("d");
        reveal_strlit("e");
        reveal_strlit("f");
    }
    let text = match digit {
        0 => "0",
        1 => "1",
        2 => "2",
        3 => "3",
        4 => "4",
        5 => "5",
        6 => "6",
        7 => "7",
        8 => "8",
        9 => "9",
        10 => "a",
        11 => "b",
        12 => "c",
        13 => "d",
        14 => "e",
        _ => "f",
    };
    assert(text@ =~= seq![hex_char(digit)]);
    text
}

/// A single-byte status code reported by an authenticator.
#[derive(Debug, Copy, Clone, PartialEq, Eq, Structural)]
pub struct CborErrorCode(pub u8);

impl CborErrorCode {
    /// The text this code is shown as: the byte in hexadecimal, followed by
    /// its description from the table, or by `unknown` when the table does
    /// not list it.
    pub open spec fn display(self) -> Seq<char> {
        "CborError: 0x"@ + lower_hex(self.0) + ": "@ + match entry_of(self.0) {
            Some(entry) => entry.2@,
            None => "unknown"@,
        }
    }

    fn detail(&self) -> (res: Option<ErrorCodeEntry>)
        ensures
            res == entry_of(self.0),
            res matches Some(entry) ==> entry.0 == self.0,
            res is Some <==> is_listed(self.0),
    {
        let mut i: usize = 0;
        while i < CTAP_ERROR_CODES.len()
            invariant
                0 <= i <= CTAP_ERROR_CODES@.len(),
                forall|j: int| 0 <= j < i ==> (#[trigger] CTAP_ERROR_CODES@[j]).0 != self.0,
            decreases CTAP_ERROR_CODES@.len() - i,
        {
            let (code, name, desc) = CTAP_ERROR_CODES[i];
            if code == self.0 {
                proof {
                    assert(is_first_entry(self.0, i as int));
                    let k = choose|k: int| is_first_entry(self.0, k);
                    lemma_first_entry_unique(self.0, i as int, k);
                }
                return Some((self.0, name, desc));
            }
            i += 1;
        }
        assert forall|k: int| !is_first_entry(self.0, k) by {
            if is_first_entry(self.0, k) {
                assert(CTAP_ERROR_CODES@[k].0 != self.0);
            }
        }
        None
    }

    /// The symbolic name of this code, where the table lists it.
    pub fn name(&self) -> (res: Option<&'static str>)
        ensures
            res == match entry_of(self.0) {
                Some(entry) => Some(entry.1),
                None => None,
            },
            res is Some <==> is_listed(self.0),
    {
        match self.detail() {
            Some((_, name, _)) => Some(name),
            None => None,
        }
    }

    /// The sentence describing this code, where the table lists it.
    pub fn description(&self) -> (res: Option<&'static str>)
        ensures
            res == match entry_of(self.0) {
                Some(entry) => Some(entry.2),
                None => None,
            },
            res is Some <==> is_listed(self.0),
    {
        match self.detail() {
            Some((_, _, desc)) => Some(desc),
            None => None,
        }
    }

    /// The raw byte the device reported.
    pub fn code(&self) -> (c: u8)
        ensures
            c == self.0,
    {
        self.0
    }

    /// Renders the code for a user, as [`CborErrorCode::display`] defines it.
    pub fn to_string(&self) -> (text: String)
        ensures
            text@ == self.display(),
    {
        let mut text = String::from_str("CborError: 0x");
        if self.0 < 16 {
            text.append(hex_digit(self.0));
        } else {
            text.append(hex_digit(self.0 / 16));
            text.append(hex_digit(self.0 % 16));
            assert(seq![hex_char(self.0 / 16)] + seq![hex_char(self.0 % 16)] =~= lower_hex(self.0));
        }
        text.append(": ");
        match self.detail() {
            Some((_, _, desc)) => text.append(desc),
            None => text.append("unknown"),
        }
        assert(text@ =~= self.display());
        text
    }
}

impl From<u8> for CborErrorCode {
    fn from(code: u8) -> (res: Self) {
        Self(code)
    }
}

impl vstd::std_specs::convert::FromSpecImpl<u8> for CborErrorCode {
    open spec fn obeys_from_spec() -> bool {
        true
    }

    open spec fn from_spec(code: u8) -> Self {
        Self(code)
    }
}

/// What went wrong, as a closed set of kinds.
#[derive(Copy, Clone, Eq, PartialEq, Debug, Structural)]
pub enum FidoErrorKind {
    Io,
    Timeout,
    ReadPacket,
    WritePacket,
    ParseCtap,
    CborEncode,
    CborDecode,
    InvalidSequence,
    GenerateKey,
    GenerateSecret,
    ParsePublic,
    EncryptPin,
    DecryptPin,
    VerifySignature,
    KeyType,
    CborError(CborErrorCode),
    DeviceUnsupported,
    PinRequired,
}

impl FidoErrorKind {
    /// The fixed sentence shown for this kind; a device status code is
    /// appended in its own rendering.
    pub open spec fn display(self) -> Seq<char> {
        match self {
            FidoErrorKind::Io => "Read/write error with device."@,
            FidoErrorKind::Timeout => "Operation timed out"@,
            FidoErrorKind::ReadPacket => "Error while reading packet from device."@,
            FidoErrorKind::WritePacket => "Error while writing packet to device."@,
            FidoErrorKind::ParseCtap => "Error while parsing CTAP from device."@,
            FidoErrorKind::CborEncode => "Error while encoding CBOR for device."@,
            FidoErrorKind::CborDecode => "Error while decoding CBOR from device."@,
            FidoErrorKind::InvalidSequence => "Packets received from device in the wrong order."@,
            FidoErrorKind::GenerateKey => "Failed to generate private keypair."@,
            FidoErrorKind::GenerateSecret => "Failed to generate shared secret."@,
            FidoErrorKind::ParsePublic => "Failed to parse public key."@,
            FidoErrorKind::EncryptPin => "Failed to encrypt PIN."@,
            FidoErrorKind::DecryptPin => "Failed to decrypt PIN."@,
            FidoErrorKind::VerifySignature => "Failed to verify response signature."@,
            FidoErrorKind::KeyType => "Failed to verify response signature."@,
            FidoErrorKind::CborError(code) => "Device returned error: "@ + code.display(),
            FidoErrorKind::DeviceUnsupported => "Device does not support FIDO2"@,
            FidoErrorKind::PinRequired => "This operating requires a PIN but none was provided."@,
        }
    }

    /// Renders the kind for a user, as [`FidoErrorKind::display`] defines it.
    pub fn to_string(&self) -> (text: String)
        ensures
            text@ == self.display(),
    {
        match self {
            FidoErrorKind::Io => String::from_str("Read/write error with device."),
            FidoErrorKind::Timeout => String::from_str("Operation timed out"),
            FidoErrorKind::ReadPacket => String::from_str("Error while reading packet from device."),
            FidoErrorKind::WritePacket => String::from_str("Error while writing packet to device."),
            FidoErrorKind::ParseCtap => String::from_str("Error while parsing CTAP from device."),
            FidoErrorKind::CborEncode => String::from_str("Error while encoding CBOR for device."),
            FidoErrorKind::CborDecode => String::from_str("Error while decoding CBOR from device."),
            FidoErrorKind::InvalidSequence => String::from_str(
                "Packets received from device in the wrong order.",
            ),
            FidoErrorKind::GenerateKey => String::from_str("Failed to generate private keypair."),
            FidoErrorKind::GenerateSecret => String::from_str("Failed to generate shared secret."),
            FidoErrorKind::ParsePublic => String::from_str("Failed to parse public key."),
            FidoErrorKind::EncryptPin => String::from_str("Failed to encrypt PIN."),
            FidoErrorKind::DecryptPin => String::from_str("Failed to decrypt PIN."),
            FidoErrorKind::VerifySignature => String::from_str("Failed to verify response signature."),
            FidoErrorKind::KeyType => String::from_str("Failed to verify response signature."),
            FidoErrorKind::CborError(code) => {
                let mut text = String::from_str("Device returned error: ");
                let rendered = code.to_string();
                text.append(rendered.as_str());
                text
            },
            FidoErrorKind::DeviceUnsupported => String::from_str("Device does not support FIDO2"),
            FidoErrorKind::PinRequired => String::from_str(
                "This operating requires a PIN but none was provided.",
            ),
        }
    }
}

/// A failure of one of this crate's operations: its kind, and nothing else.
#[derive(Copy, Clone, Eq, PartialEq, Debug, Structural)]
pub struct FidoError(pub FidoErrorKind);

impl FidoError {
    /// The kind of failure this error stands for.
    pub fn kind(&self) -> (k: FidoErrorKind)
        ensures
            k == self.0,
    {
        self.0
    }

    /// Renders the error for a user: the text of its kind.
    pub fn to_string(&self) -> (text: String)
        ensures
            text@ == self.0.display(),
    {
        self.0.to_string()
    }
}

impl From<FidoErrorKind> for FidoError {
    fn from(kind: FidoErrorKind) -> (res: FidoError) {
        FidoError(kind)
    }
}

impl vstd::std_specs::convert::FromSpecImpl<FidoErrorKind> for FidoError {
    open spec fn obeys_from_spec() -> bool {
        true
    }

    open spec fn from_spec(kind: FidoErrorKind) -> FidoError {
        FidoError(kind)
    }
}

#[verifier::external_type_specification]
#[verifier::external_body]
pub struct ExEncodeError(cbor::EncodeError);

#[verifier::external_type_specification]
#[verifier::external_body]
pub struct ExDecodeError(cbor::DecodeError);

/// Whatever went wrong while encoding a message for the device, the
/// failure is of kind `CborEncode`.
impl From<cbor::EncodeError> for FidoError {
    fn from(err: cbor::EncodeError) -> (res: FidoError) {
        FidoError(FidoErrorKind::CborEncode)
    }
}

impl vstd::std_specs::convert::FromSpecImpl<cbor::EncodeError> for FidoError {
    open spec fn obeys_from_spec() -> bool {
        true
    }

    open spec fn from_spec(err: cbor::EncodeError) -> FidoError {
        FidoError(FidoErrorKind::CborEncode)
    }
}

/// Whatever went wrong while decoding a message from the device, the
/// failure is of kind `CborDecode`.
impl From<cbor::DecodeError> for FidoError {
    fn from(err: cbor::DecodeError) -> (res: FidoError) {
        FidoError(FidoErrorKind::CborDecode)
    }
}

impl vstd::std_specs::convert::FromSpecImpl<cbor::DecodeError> for FidoError {
    open spec fn obeys_from_spec() -> bool {
        true
    }

    open spec fn from_spec(err: cbor::DecodeError) -> FidoError {
        FidoError(FidoErrorKind::CborDecode)
    }
}

} // verus!
