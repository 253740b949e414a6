//! Arguments of a model deployment, whose secret values are kept encrypted.

use vstd::prelude::*;
use crate::application::ports::cipher::CipherError;
use crate::application::ports::deployment_argument::DeploymentArgumentRepositoryError;
use crate::application::services::model_deployment_service::ArgumentInput;

verus! {

/// The value of a deployment argument, decrypted when it was secret.
#[derive(Clone, Debug)]
pub struct DecryptedArgument {
    pub parameter_name: String,
    pub value: String,
}

#[derive(Clone, Debug)]
pub enum DeploymentArgumentServiceError {
    DecryptionError(CipherError),
    /// The decrypted value is not UTF-8 text.
    Utf8ConversionError(String),
    /// The arguments do not satisfy the strategy; the message says why.
    StrategyError(String),
    DeploymentArgumentPersistenceError(DeploymentArgumentRepositoryError),
}

pub struct DeploymentArgumentService<R, C> {
    argument_repo: R,
    cipher: C,
}

impl<R, C> DeploymentArgumentService<R, C> {
    pub closed spec fn argument_repo_spec(&self) -> R {
        self.argument_repo
    }

    pub closed spec fn cipher_spec(&self) -> C {
        self.cipher
    }

    pub fn new(argument_repo: R, cipher: C) -> (s: Self)
        ensures
            s.argument_repo_spec() == argument_repo,
            s.cipher_spec() == cipher,
    {
        DeploymentArgumentService { argument_repo, cipher }
    }

    pub fn argument_repo(&self) -> (r: &R)
        ensures
            *r == self.argument_repo_spec(),
    {
        &self.argument_repo
    }

    pub fn cipher(&self) -> (r: &C)
        ensures
            *r == self.cipher_spec(),
    {
        &self.cipher
    }
}

/// The text that bytes encode in UTF-8, or `None` when they are not valid
/// UTF-8: what `String::from_utf8` decides of them.
pub uninterp spec fn utf8_text(bytes: Seq<u8>) -> Option<Seq<char>>;

/// Every byte is below 128.
pub open spec fn is_ascii_bytes(bytes: Seq<u8>) -> bool {
    forall|i: int| 0 <= i < bytes.len() ==> #[trigger] bytes[i] < 128u8
}

/// The characters whose codes are the bytes.
pub open spec fn ascii_text(bytes: Seq<u8>) -> Seq<char> {
    bytes.map_values(|b: u8| b as char)
}

/// `String::from_utf8` on the bytes, its error turned into its message. The
/// contract ties the outcome to `utf8_text` and states one fact of UTF-8:
/// bytes below 128 decode each to the character of that code. The error's
/// message is not stated.
#[verifier::external_body]
fn decode_utf8(bytes: Vec<u8>) -> (r: Result<String, String>)
    ensures
        r is Ok <==> utf8_text(bytes@) is Some,
        r matches Ok(s) ==> utf8_text(bytes@) == Some(s@),
        is_ascii_bytes(bytes@) ==> r is Ok,
        r matches Ok(s) ==> (is_ascii_bytes(bytes@) ==> s@ == ascii_text(bytes@)),
{
    match String::from_utf8(bytes) {
        Ok(s) => Ok(s),
        Err(e) => Err(e.to_string()),
    }
}

/// The argument whose decrypted value was decoded as `decoded`: its text,
/// or the decoding failure.
pub fn argument_from_decoded(parameter_name: String, decoded: Result<String, String>) -> (r: Result<
    DecryptedArgument,
    DeploymentArgumentServiceError,
>)
    ensures
        match decoded {
            Ok(value) => r matches Ok(a) && a.parameter_name == parameter_name && a.value == value,
            Err(reason) => r matches Err(DeploymentArgumentServiceError::Utf8ConversionError(m))
                && m == reason,
        },
{
    match decoded {
        Ok(value) => Ok(DecryptedArgument { parameter_name, value }),
        Err(reason) => Err(DeploymentArgumentServiceError::Utf8ConversionError(reason)),
    }
}

/// The argument whose secret value decrypted to these bytes: the value is
/// their UTF-8 text, and bytes that are not UTF-8 are an error.
pub fn decrypted_argument(parameter_name: String, bytes: Vec<u8>) -> (r: Result<
    DecryptedArgument,
    DeploymentArgumentServiceError,
>)
    ensures
        match utf8_text(bytes@) {
            Some(text) => r matches Ok(a) && a.parameter_name == parameter_name && a.value@ == text,
            None => r matches Err(DeploymentArgumentServiceError::Utf8ConversionError(_)),
        },
{
    let decoded = decode_utf8(bytes);
    argument_from_decoded(parameter_name, decoded)
}

/// How an argument is stored: as given, or encrypted because the strategy
/// marks its parameter secret.
#[derive(Debug)]
pub enum PreparedArgument {
    PlainText { parameter_name: String, value: String },
    ToEncrypt { parameter_name: String, value: String },
}

/// The strategy marks the parameter of this name secret.
pub open spec fn is_secret_parameter(secret_parameters: Seq<String>, name: Seq<char>) -> bool {
    exists|k: int| 0 <= k < secret_parameters.len() && (#[trigger] secret_parameters[k])@ == name
}

/// What becomes of one argument given the strategy's secret parameters.
pub open spec fn prepared(secret_parameters: Seq<String>, input: ArgumentInput, p: PreparedArgument) -> bool {
    if is_secret_parameter(secret_parameters, input.parameter_name@) {
        p == PreparedArgument::ToEncrypt {
            parameter_name: input.parameter_name,
            value: input.value,
        }
    } else {
        p == PreparedArgument::PlainText {
            parameter_name: input.parameter_name,
            value: input.value,
        }
    }
}

fn is_secret(secret_parameters: &Vec<String>, name: &String) -> (b: bool)
    ensures
        b == is_secret_parameter(secret_parameters@, name@),
{
    let mut k: usize = 0;
    while k < secret_parameters.len()
        invariant
            k <= secret_parameters@.len(),
            forall|j: int| 0 <= j < k ==> (#[trigger] secret_parameters@[j])@ != name@,
        decreases secret_parameters@.len() - k,
    {
        if secret_parameters[k] == *name {
            return true;
        }
        k = k + 1;
    }
    false
}

/// Decides, argument by argument and in order, which values are stored as
/// given and which are encrypted first: those of the parameters that the
/// strategy marks secret.
pub fn prepare_arguments(inputs: &Vec<ArgumentInput>, secret_parameters: &Vec<String>) -> (out: Vec<
    PreparedArgument,
>)
    ensures
        out@.len() == inputs@.len(),
        forall|i: int|
            0 <= i < inputs@.len() ==> prepared(secret_parameters@, inputs@[i], #[trigger] out@[i]),
{
    let mut out: Vec<PreparedArgument> = Vec::new();
    let mut i: usize = 0;
    while i < inputs.len()
        invariant
            i <= inputs@.len(),
            out@.len() == i,
            forall|j: int| 0 <= j < i ==> prepared(secret_parameters@, inputs@[j], #[trigger] out@[j]),
        decreases inputs@.len() - i,
    {
        let input = &inputs[i];
        let name = input.parameter_name.clone();
        let value = input.value.clone();
        if is_secret(secret_parameters, &input.parameter_name) {
            out.push(PreparedArgument::ToEncrypt { parameter_name: name, value });
        } else {
            out.push(PreparedArgument::PlainText { parameter_name: name, value });
        }
        i = i + 1;
    }
    out
}

} // verus!
