//! Encoding of a call to a function of a contract on a remote chain.
//!
//! A call is the four-byte selector of the function followed by the
//! head/tail encoding of its arguments. The selector and the argument
//! encoding are computed by the `ethabi` crate; this module checks the
//! arguments against the function's signature before it hands them over.

use crate::error::ContractError;
use crate::uint::Uint256;
use std::str::FromStr;
use vstd::arithmetic::power2::pow2;
use vstd::prelude::*;
use vstd::utf8::encode_utf8;

verus! {

/// The kind of a parameter of a remote function.
#[derive(Clone, Copy, Debug, PartialEq, Eq, Structural)]
pub enum ParamType {
    /// A 20-byte account address.
    Address,
    /// A text of any length.
    String,
    /// An unsigned integer of the given number of bits.
    Uint(usize),
}

/// An argument value of a remote call.
#[derive(Debug, PartialEq, Eq)]
pub enum Token {
    /// A 20-byte account address.
    Address([u8; 20]),
    /// A text.
    String(String),
    /// An unsigned integer.
    Uint(Uint256),
}

/// What a `Token` stands for.
pub enum TokenView {
    /// The 20 bytes of an address.
    Address(Seq<u8>),
    /// The characters of a text.
    String(Seq<char>),
    /// A number.
    Uint(nat),
}

impl View for Token {
    type V = TokenView;

    open spec fn view(&self) -> TokenView {
        match self {
            Token::Address(bytes) => TokenView::Address(bytes@),
            Token::String(text) => TokenView::String(text@),
            Token::Uint(number) => TokenView::Uint(number@),
        }
    }
}

impl DeepView for Token {
    type V = TokenView;

    open spec fn deep_view(&self) -> TokenView {
        self@
    }
}

impl Clone for Token {
    fn clone(&self) -> (copy: Self)
        ensures
            copy@ == self@,
    {
        match self {
            Token::Address(bytes) => Token::Address(*bytes),
            Token::String(text) => Token::String(text.clone()),
            Token::Uint(number) => Token::Uint(*number),
        }
    }
}

/// The name of a remote function and the kinds of its parameters, in order.
#[derive(Debug, PartialEq, Eq)]
pub struct FunctionSignature {
    pub name: String,
    pub parameters: Vec<ParamType>,
}

/// What a `FunctionSignature` stands for.
pub struct FunctionSignatureView {
    pub name: Seq<char>,
    pub parameters: Seq<ParamType>,
}

impl View for FunctionSignature {
    type V = FunctionSignatureView;

    open spec fn view(&self) -> FunctionSignatureView {
        FunctionSignatureView { name: self.name@, parameters: self.parameters@ }
    }
}

impl Clone for FunctionSignature {
    fn clone(&self) -> (copy: Self)
        ensures
            copy@ == self@,
    {
        let copy = FunctionSignature {
            name: self.name.clone(),
            parameters: self.parameters.clone(),
        };
        assert(copy.parameters@ =~= self.parameters@);
        copy
    }
}

/// The four-byte selector that `ethabi::short_signature` computes for a
/// function of this name and these parameter kinds.
pub uninterp spec fn selector(name: Seq<char>, parameters: Seq<ParamType>) -> Seq<u8>;

/// The bytes that `ethabi::encode` lays out for these argument values.
pub uninterp spec fn abi_encoding(tokens: Seq<TokenView>) -> Seq<u8>;

/// The 20 bytes that the `FromStr` impl of `ethabi::Address` reads from this
/// text, or `None` where it rejects the text.
pub uninterp spec fn parsed_address(text: Seq<char>) -> Option<Seq<u8>>;

/// Whether a value is of the kind that a parameter asks for.
pub open spec fn kind_matches(kind: ParamType, token: TokenView) -> bool {
    match (kind, token) {
        (ParamType::Address, TokenView::Address(_)) => true,
        (ParamType::String, TokenView::String(_)) => true,
        (ParamType::Uint(_), TokenView::Uint(_)) => true,
        _ => false,
    }
}

/// Whether a value lies in the range of a parameter: an integer of `bits`
/// bits is below `2^bits`; other kinds have no range.
pub open spec fn in_range(kind: ParamType, token: TokenView) -> bool {
    match (kind, token) {
        (ParamType::Uint(bits), TokenView::Uint(number)) => number < pow2(bits as nat),
        _ => true,
    }
}

/// What is wrong with one value given for one parameter, if anything.
pub open spec fn token_fault(kind: ParamType, token: TokenView) -> Option<ContractError> {
    if !kind_matches(kind, token) {
        Some(ContractError::TypeMismatch)
    } else if !in_range(kind, token) {
        Some(ContractError::ValueOutOfRange)
    } else {
        None
    }
}

/// The fault of the first faulty value at or after position `from`.
pub open spec fn first_fault_from(
    parameters: Seq<ParamType>,
    tokens: Seq<TokenView>,
    from: int,
) -> Option<ContractError>
    decreases parameters.len() - from,
{
    if from < 0 || from >= parameters.len() {
        None
    } else if token_fault(parameters[from], tokens[from]) is Some {
        token_fault(parameters[from], tokens[from])
    } else {
        first_fault_from(parameters, tokens, from + 1)
    }
}

/// The number of bytes that one value takes in the argument encoding: a
/// 32-byte head word and, for a text, a length word and the text's UTF-8
/// bytes padded to whole words.
pub open spec fn token_len(token: TokenView) -> nat {
    match token {
        TokenView::String(text) => 32 + 32 * ((encode_utf8(text).len() + 31) / 32 + 1) as nat,
        _ => 32,
    }
}

/// The number of bytes that the argument encoding of these values takes.
pub open spec fn encoded_len(tokens: Seq<TokenView>) -> nat
    decreases tokens.len(),
{
    if tokens.len() == 0 {
        0
    } else {
        encoded_len(tokens.drop_last()) + token_len(tokens.last())
    }
}

/// The largest argument encoding that can be laid out, in bytes. The
/// encoder reserves a 32-byte word for each byte of the encoding, and the
/// size of what it reserves must stay below `2^31` bytes where addresses
/// have 32 bits.
pub const MAX_ENCODED_LEN: u64 = 0x3ff_ffff;

/// Whether `tokens` can be given to a function of `signature`.
///
/// The number of values must be the number of parameters, else the error is
/// `ArityMismatch`. Each value, in order, must be of its parameter's kind and
/// within its range; the first value that is not decides the error,
/// `TypeMismatch` or `ValueOutOfRange`. The argument encoding must not
/// exceed `MAX_ENCODED_LEN`, else the error is `ValueOutOfRange`.
pub open spec fn validation(signature: FunctionSignatureView, tokens: Seq<TokenView>) -> Result<
    (),
    ContractError,
> {
    if tokens.len() != signature.parameters.len() {
        Err(ContractError::ArityMismatch)
    } else if first_fault_from(signature.parameters, tokens, 0) is Some {
        Err(first_fault_from(signature.parameters, tokens, 0)->0)
    } else if encoded_len(tokens) > MAX_ENCODED_LEN {
        Err(ContractError::ValueOutOfRange)
    } else {
        Ok(())
    }
}

/// The outcome of encoding a call of `signature` with `tokens`: the error
/// of `validation`, or the selector followed by the argument encoding.
pub open spec fn call_encoding(
    signature: FunctionSignatureView,
    tokens: Seq<TokenView>,
) -> Result<Seq<u8>, ContractError> {
    match validation(signature, tokens) {
        Err(e) => Err(e),
        Ok(_) => Ok(selector(signature.name, signature.parameters) + abi_encoding(tokens)),
    }
}

/// Calls `ethabi::short_signature`, which hashes the textual form
/// `name(kind,...)` of the signature with Keccak-256 and keeps the first
/// four bytes. The contract claims only that the result depends on the name
/// and the kinds alone, and gives it the name `selector`.
#[verifier::external_body]
fn short_signature(name: &str, parameters: &Vec<ParamType>) -> (prefix: [u8; 4])
    ensures
        prefix@ == selector(name@, parameters@),
{
    let kinds: Vec<ethabi::ParamType> = parameters
        .iter()
        .map(|kind| match kind {
            ParamType::Address => ethabi::ParamType::Address,
            ParamType::String => ethabi::ParamType::String,
            ParamType::Uint(bits) => ethabi::ParamType::Uint(*bits),
        })
        .collect();
    ethabi::short_signature(name, &kinds)
}

/// Calls `ethabi::encode`, which lays the values out as head words followed
/// by the tails of the texts. The contract gives the result the name
/// `abi_encoding`, which claims that it depends on the values alone, and
/// states its length: one word for each value and, for each text, a length
/// word and the words that hold the text. `ethabi` adds up these lengths in
/// 32 bits and reserves that many words before it writes, which overflows
/// on a long encoding; the precondition leaves such values out.
#[verifier::external_body]
fn encode_tokens(tokens: &Vec<Token>) -> (bytes: Vec<u8>)
    requires
        encoded_len(tokens.deep_view()) <= MAX_ENCODED_LEN,
    ensures
        bytes@ == abi_encoding(tokens.deep_view()),
        bytes@.len() == encoded_len(tokens.deep_view()),
{
    let values: Vec<ethabi::Token> = tokens
        .iter()
        .map(|token| match token {
            Token::Address(bytes) => ethabi::Token::Address(ethabi::Address::from(*bytes)),
            Token::String(text) => ethabi::Token::String(text.clone()),
            Token::Uint(number) => ethabi::Token::Uint(ethabi::Uint::from_big_endian(&number.bytes)),
        })
        .collect();
    ethabi::encode(&values)
}

/// Calls the `FromStr` impl of `ethabi::Address`, which reads the text,
/// after an optional `0x`, as the hexadecimal digits of 20 bytes. The
/// contract claims only that the outcome depends on the text alone, and
/// gives it the name `parsed_address`.
#[verifier::external_body]
fn address_from_str(text: &str) -> (parsed: Option<[u8; 20]>)
    ensures
        parsed matches Some(bytes) ==> parsed_address(text@) == Some(bytes@),
        parsed is None ==> parsed_address(text@) is None,
{
    ethabi::Address::from_str(text).ok().map(|address| address.to_fixed_bytes())
}

/// Reads the hexadecimal form of a remote account address.
pub fn parse_address(text: &str) -> (r: Result<[u8; 20], ContractError>)
    ensures
        match r {
            Ok(bytes) => parsed_address(text@) == Some(bytes@),
            Err(e) => e == ContractError::InvalidPrincipal && parsed_address(text@) is None,
        },
{
    match address_from_str(text) {
        Some(bytes) => Ok(bytes),
        None => Err(ContractError::InvalidPrincipal),
    }
}

/// Checks one value against its parameter.
pub fn check_token(kind: &ParamType, token: &Token) -> (fault: Option<ContractError>)
    ensures
        fault == token_fault(*kind, token@),
{
    match (kind, token) {
        (ParamType::Address, Token::Address(_)) => None,
        (ParamType::String, Token::String(_)) => None,
        (ParamType::Uint(bits), Token::Uint(number)) => {
            if number.fits(*bits) {
                None
            } else {
                Some(ContractError::ValueOutOfRange)
            }
        },
        _ => Some(ContractError::TypeMismatch),
    }
}

/// The argument encoding of the first `k` values is no longer than that of
/// all of them.
pub proof fn lemma_encoded_len_prefix(tokens: Seq<TokenView>, k: int)
    requires
        0 <= k <= tokens.len(),
    ensures
        encoded_len(tokens.take(k)) <= encoded_len(tokens),
    decreases tokens.len(),
{
    if k == tokens.len() {
        assert(tokens.take(k) =~= tokens);
    } else {
        lemma_encoded_len_prefix(tokens.drop_last(), k);
        assert(tokens.drop_last().take(k) =~= tokens.take(k));
    }
}

/// Whether the argument encoding of the values is short enough to lay out.
pub fn fits_encoding(tokens: &Vec<Token>) -> (ok: bool)
    ensures
        ok == (encoded_len(tokens.deep_view()) <= MAX_ENCODED_LEN),
{
    let ghost views = tokens.deep_view();
    let mut total: u64 = 0;
    let mut i: usize = 0;
    proof {
        assert(views.take(0) =~= Seq::<TokenView>::empty());
    }
    while i < tokens.len()
        invariant
            0 <= i <= tokens.len(),
            views == tokens.deep_view(),
            total == encoded_len(views.take(i as int)),
            total <= MAX_ENCODED_LEN,
        decreases tokens.len() - i,
    {
        let size: u64 = match &tokens[i] {
            Token::String(text) => {
                let bytes: usize = text.as_str().as_bytes().len();
                if bytes > MAX_ENCODED_LEN as usize {
                    proof {
                        assert(views.take(i + 1).drop_last() =~= views.take(i as int));
                        assert(views.take(i + 1).last() == tokens[i as int]@);
                        lemma_encoded_len_prefix(views, i + 1);
                    }
                    return false;
                }
                32 + 32 * ((bytes as u64 + 31) / 32 + 1)
            },
            _ => 32,
        };
        proof {
            assert(views.take(i + 1).drop_last() =~= views.take(i as int));
            assert(views.take(i + 1).last() == tokens[i as int]@);
            assert(size == token_len(tokens[i as int]@));
            lemma_encoded_len_prefix(views, i + 1);
        }
        if size > MAX_ENCODED_LEN - total {
            return false;
        }
        total = total + size;
        i = i + 1;
    }
    proof {
        assert(views.take(i as int) =~= views);
    }
    true
}

/// The values have no fault exactly when each is of its parameter's kind
/// and within its range.
pub proof fn lemma_first_fault(parameters: Seq<ParamType>, tokens: Seq<TokenView>, from: int)
    requires
        0 <= from <= parameters.len(),
    ensures
        first_fault_from(parameters, tokens, from) is None <==> (forall|i: int|
            from <= i < parameters.len() ==> kind_matches(parameters[i], tokens[i]) && in_range(
                parameters[i],
                tokens[i],
            )),
    decreases parameters.len() - from,
{
    if from < parameters.len() {
        lemma_first_fault(parameters, tokens, from + 1);
    }
}

/// Values among which there is no text take one word each.
pub proof fn lemma_encoded_len_without_text(tokens: Seq<TokenView>)
    requires
        forall|i: int| 0 <= i < tokens.len() ==> !(tokens[i] is String),
    ensures
        encoded_len(tokens) == 32 * tokens.len(),
    decreases tokens.len(),
{
    if tokens.len() > 0 {
        assert forall|i: int| 0 <= i < tokens.drop_last().len() implies !(
        tokens.drop_last()[i] is String) by {
            assert(tokens.drop_last()[i] == tokens[i]);
        }
        lemma_encoded_len_without_text(tokens.drop_last());
    }
}

/// Values of the right number, kinds and ranges, among which there is no
/// text and whose words do not exceed `MAX_ENCODED_LEN`, are accepted.
pub proof fn lemma_validation_without_text(
    signature: FunctionSignatureView,
    tokens: Seq<TokenView>,
)
    requires
        tokens.len() == signature.parameters.len(),
        32 * tokens.len() <= MAX_ENCODED_LEN,
        forall|i: int|
            0 <= i < tokens.len() ==> !(tokens[i] is String) && kind_matches(
                signature.parameters[i],
                tokens[i],
            ) && in_range(signature.parameters[i], tokens[i]),
    ensures
        validation(signature, tokens) == Ok::<(), ContractError>(()),
{
    lemma_first_fault(signature.parameters, tokens, 0);
    lemma_encoded_len_without_text(tokens);
}

/// Checks `tokens` against `signature`.
pub fn validate(signature: &FunctionSignature, tokens: &Vec<Token>) -> (r: Result<
    (),
    ContractError,
>)
    ensures
        r == validation(signature@, tokens.deep_view()),
{
    let ghost parameters = signature.parameters@;
    let ghost views = tokens.deep_view();
    if tokens.len() != signature.parameters.len() {
        return Err(ContractError::ArityMismatch);
    }
    let mut i: usize = 0;
    while i < tokens.len()
        invariant
            0 <= i <= tokens.len(),
            tokens.len() == signature.parameters.len(),
            parameters == signature.parameters@,
            views == tokens.deep_view(),
            first_fault_from(parameters, views, 0) == first_fault_from(parameters, views, i as int),
        decreases tokens.len() - i,
    {
        match check_token(&signature.parameters[i], &tokens[i]) {
            Some(fault) => {
                return Err(fault);
            },
            None => {},
        }
        i = i + 1;
    }
    if !fits_encoding(tokens) {
        return Err(ContractError::ValueOutOfRange);
    }
    Ok(())
}

/// The payload of a call: the selector `prefix` followed by the argument
/// encoding `arguments`.
pub fn assemble(prefix: [u8; 4], arguments: Vec<u8>) -> (payload: Vec<u8>)
    ensures
        payload@ == prefix@ + arguments@,
{
    let mut payload: Vec<u8> = Vec::new();
    let mut k: usize = 0;
    while k < 4
        invariant
            0 <= k <= 4,
            payload@ == prefix@.take(k as int),
        decreases 4 - k,
    {
        payload.push(prefix[k]);
        proof {
            assert(prefix@.take(k + 1) =~= prefix@.take(k as int).push(prefix@[k as int]));
        }
        k = k + 1;
    }
    proof {
        assert(prefix@.take(4) =~= prefix@);
    }
    let mut arguments = arguments;
    payload.append(&mut arguments);
    payload
}

/// Encodes a call of `signature` with the argument values `tokens`.
pub fn encode(signature: &FunctionSignature, tokens: &Vec<Token>) -> (r: Result<
    Vec<u8>,
    ContractError,
>)
    ensures
        call_encoding(signature@, tokens.deep_view()) == match r {
            Ok(payload) => Ok::<Seq<u8>, ContractError>(payload@),
            Err(e) => Err(e),
        },
        r matches Ok(payload) ==> payload@.len() == 4 + encoded_len(tokens.deep_view())
            && payload@.take(4) == selector(signature@.name, signature@.parameters)
            && payload@.skip(4) == abi_encoding(tokens.deep_view()),
{
    validate(signature, tokens)?;
    let prefix = short_signature(signature.name.as_str(), &signature.parameters);
    let arguments = encode_tokens(tokens);
    let payload = assemble(prefix, arguments);
    proof {
        assert(payload@.take(4) =~= prefix@);
        assert(payload@.skip(4) =~= arguments@);
    }
    Ok(payload)
}

} // verus!
