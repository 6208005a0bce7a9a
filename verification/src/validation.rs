//! The validator: structural checks on a submitted transaction, the
//! recently-processed gate, the size pre-check, and the reading of the
//! node's answer to `testmempoolaccept`.

use crate::decimal::{decimal_digits, decimal_text};
use crate::hexcode::{
    all_hex_digits, hex_decode, hex_decoded, is_hex_digit, is_hex_encoding, is_hex_text,
};
use crate::recent::{
    entries_after_put, entry_value, fits_cache, key_position, lru_capacity, lru_entries, lru_new,
    lru_peek, lru_put, put_fits_cache, put_keeps_other_entries,
};
use crate::txdecode::{consensus_decoded, decode_transaction, TxSummary};
use lru::LruCache;
use vstd::prelude::*;
use vstd::string::*;

verus! {

/// The smallest transaction, in bytes, that the pre-check lets through.
pub const MIN_TX_BYTES: usize = 60;

/// The largest transaction, in bytes, that the pre-check lets through.
pub const MAX_TX_BYTES: usize = 400_000;

/// The capacity a cache gets where the configured size is zero.
pub const FALLBACK_CACHE_SIZE: usize = 1000;

/// Why a transaction was turned away.
#[derive(Debug)]
pub enum ValidationError {
    EmptyTransaction,
    InvalidHex,
    InvalidSize(usize),
    InvalidStructure,
    RecentlyProcessed(String),
    BitcoinCoreRejection(String),
    RpcError(String),
    JsonError(String),
}

/// A `ValidationError` over mathematical values.
pub enum Failure {
    EmptyTransaction,
    InvalidHex,
    InvalidSize(nat),
    InvalidStructure,
    RecentlyProcessed(Seq<char>),
    BitcoinCoreRejection(Seq<char>),
    RpcError(Seq<char>),
    JsonError(Seq<char>),
}

impl View for ValidationError {
    type V = Failure;

    open spec fn view(&self) -> Failure {
        match self {
            ValidationError::EmptyTransaction => Failure::EmptyTransaction,
            ValidationError::InvalidHex => Failure::InvalidHex,
            ValidationError::InvalidSize(n) => Failure::InvalidSize(*n as nat),
            ValidationError::InvalidStructure => Failure::InvalidStructure,
            ValidationError::RecentlyProcessed(t) => Failure::RecentlyProcessed(t@),
            ValidationError::BitcoinCoreRejection(r) => Failure::BitcoinCoreRejection(r@),
            ValidationError::RpcError(m) => Failure::RpcError(m@),
            ValidationError::JsonError(m) => Failure::JsonError(m@),
        }
    }
}

/// The text that describes a failure.
pub open spec fn failure_text(f: Failure) -> Seq<char> {
    match f {
        Failure::EmptyTransaction => "Empty transaction"@,
        Failure::InvalidHex => "Invalid hex format"@,
        Failure::InvalidSize(n) => "Invalid transaction size: "@ + decimal_digits(n) + " bytes"@,
        Failure::InvalidStructure => "Invalid transaction structure"@,
        Failure::RecentlyProcessed(t) => "Transaction "@ + t + " recently processed (cached)"@,
        Failure::BitcoinCoreRejection(r) => "Bitcoin Core rejection: "@ + r,
        Failure::RpcError(m) => "RPC error: "@ + m,
        Failure::JsonError(m) => "JSON parsing error: "@ + m,
    }
}

impl ValidationError {
    /// The message for this error.
    pub fn message(&self) -> (text: String)
        ensures
            text@ == failure_text(self@),
    {
        match self {
            ValidationError::EmptyTransaction => String::from_str("Empty transaction"),
            ValidationError::InvalidHex => String::from_str("Invalid hex format"),
            ValidationError::InvalidSize(n) => {
                let mut text = String::from_str("Invalid transaction size: ");
                let digits = decimal_text(*n as u64);
                text.append(digits.as_str());
                text.append(" bytes");
                text
            },
            ValidationError::InvalidStructure => String::from_str("Invalid transaction structure"),
            ValidationError::RecentlyProcessed(t) => {
                let mut text = String::from_str("Transaction ");
                text.append(t.as_str());
                text.append(" recently processed (cached)");
                text
            },
            ValidationError::BitcoinCoreRejection(r) => {
                let mut text = String::from_str("Bitcoin Core rejection: ");
                text.append(r.as_str());
                text
            },
            ValidationError::RpcError(m) => {
                let mut text = String::from_str("RPC error: ");
                text.append(m.as_str());
                text
            },
            ValidationError::JsonError(m) => {
                let mut text = String::from_str("JSON parsing error: ");
                text.append(m.as_str());
                text
            },
        }
    }
}

/// A result of validation over mathematical values.
pub open spec fn verdict_view(r: Result<(), ValidationError>) -> Result<(), Failure> {
    match r {
        Ok(_) => Ok(()),
        Err(e) => Err(e@),
    }
}

/// A transaction id or an error, over mathematical values.
pub open spec fn txid_view(r: Result<String, ValidationError>) -> Result<Seq<char>, Failure> {
    match r {
        Ok(t) => Ok(t@),
        Err(e) => Err(e@),
    }
}

/// What the validator is configured to do.
#[derive(Debug, Clone)]
pub struct ValidationConfig {
    /// Master switch: when off, everything is accepted unexamined.
    pub enable_validation: bool,
    /// Whether the size and hex pre-check runs.
    pub enable_precheck: bool,
    /// Timeout of the node's acceptance test, in milliseconds.
    pub validation_timeout_ms: u64,
    /// How long a validated transaction counts as recently processed.
    pub cache_ttl_seconds: u64,
    /// How many validated transactions are remembered.
    pub cache_size: usize,
}

impl Default for ValidationConfig {
    fn default() -> (config: ValidationConfig)
        ensures
            config.enable_validation,
            config.enable_precheck,
            config.validation_timeout_ms == 5000,
            config.cache_ttl_seconds == 600,
            config.cache_size == 1000,
    {
        ValidationConfig {
            enable_validation: true,
            enable_precheck: true,
            validation_timeout_ms: 5000,
            cache_ttl_seconds: 600,
            cache_size: 1000,
        }
    }
}

/// One entry of the node's answer to `testmempoolaccept`.
#[derive(Debug, Clone)]
pub struct CoreResult {
    /// The `allowed` field, where it is a boolean.
    pub allowed: Option<bool>,
    /// The `reject-reason` field, where it is a string.
    pub reject_reason: Option<String>,
}

/// The node's answer to `testmempoolaccept`, as far as the validator reads
/// it.
#[derive(Debug, Clone)]
pub struct CoreReply {
    /// The `error` field rendered as JSON text, where it is present and not
    /// null.
    pub error: Option<String>,
    /// The `result` field, where it is an array.
    pub result: Option<Vec<CoreResult>>,
}

/// The pre-check: the text is not empty, is all hex digits, and stands for
/// between 60 and 400 000 bytes.
pub open spec fn precheck_outcome(text: Seq<char>) -> Result<(), Failure> {
    if text.len() == 0 {
        Err(Failure::EmptyTransaction)
    } else if !is_hex_text(text) {
        Err(Failure::InvalidHex)
    } else if text.len() / 2 < MIN_TX_BYTES || text.len() / 2 > MAX_TX_BYTES {
        Err(Failure::InvalidSize(text.len() / 2))
    } else {
        Ok(())
    }
}

/// The structure check: the text decodes from hex, the bytes deserialize to
/// a transaction, and the result is that transaction's id.
pub open spec fn extract_outcome(text: Seq<char>) -> Result<Seq<char>, Failure> {
    if !is_hex_encoding(text) {
        Err(Failure::InvalidHex)
    } else {
        match consensus_decoded(hex_decoded(text)) {
            None => Err(Failure::InvalidStructure),
            Some(t) => Ok(t.0),
        }
    }
}

/// The time that has passed since `seen`, in milliseconds; none where the
/// clock reads earlier than `seen`.
pub open spec fn elapsed_ms(seen: u64, now: u64) -> int {
    if now >= seen {
        now - seen
    } else {
        0
    }
}

/// A transaction id is recent where the cache holds it and less than the
/// time to live has passed since it was stored.
pub open spec fn is_recent(
    entries: Seq<(Seq<char>, u64)>,
    ttl_seconds: u64,
    txid: Seq<char>,
    now: u64,
) -> bool {
    match entry_value(entries, txid) {
        Some(seen) => elapsed_ms(seen, now) < ttl_seconds * 1000,
        None => false,
    }
}

/// What the node's answer means: an error object is a rejection, so is a
/// result that is no array or an empty one; else the first entry decides,
/// and a refusal carries the node's reason.
pub open spec fn core_outcome(reply: CoreReply) -> Result<(), Failure> {
    match reply.error {
        Some(e) => Err(Failure::BitcoinCoreRejection("RPC error: "@ + e@)),
        None => match reply.result {
            None => Err(Failure::BitcoinCoreRejection("Invalid response format"@)),
            Some(results) => if results@.len() == 0 {
                Err(Failure::BitcoinCoreRejection("Empty response"@))
            } else if results@[0].allowed == Some(true) {
                Ok(())
            } else {
                match results@[0].reject_reason {
                    Some(reason) => Err(Failure::BitcoinCoreRejection(reason@)),
                    None => Err(Failure::BitcoinCoreRejection("unknown reason"@)),
                }
            },
        },
    }
}

/// The local checks on a transaction whose id is known: the
/// recently-processed gate, then the pre-check where it is switched on.
pub open spec fn gate_outcome(
    config: ValidationConfig,
    entries: Seq<(Seq<char>, u64)>,
    txid: Seq<char>,
    text: Seq<char>,
    now: u64,
) -> Result<(), Failure> {
    if is_recent(entries, config.cache_ttl_seconds, txid, now) {
        Err(Failure::RecentlyProcessed(txid))
    } else if config.enable_precheck && precheck_outcome(text) is Err {
        precheck_outcome(text)
    } else {
        Ok(())
    }
}

/// The outcome for a transaction whose id is known: the cache gate and the
/// pre-check, then what the node answered.
pub open spec fn pipeline_outcome(
    config: ValidationConfig,
    entries: Seq<(Seq<char>, u64)>,
    txid: Seq<char>,
    text: Seq<char>,
    now: u64,
    reply: CoreReply,
) -> Result<(), Failure> {
    match gate_outcome(config, entries, txid, text, now) {
        Err(e) => Err(e),
        Ok(_) => core_outcome(reply),
    }
}

/// The cache after that outcome: a transaction that passed is stored with
/// the time of validation; nothing else changes the cache.
pub open spec fn cache_after_pipeline(
    config: ValidationConfig,
    entries: Seq<(Seq<char>, u64)>,
    capacity: nat,
    txid: Seq<char>,
    text: Seq<char>,
    now: u64,
    reply: CoreReply,
) -> Seq<(Seq<char>, u64)> {
    if pipeline_outcome(config, entries, txid, text, now, reply) is Ok {
        entries_after_put(entries, capacity, txid, now)
    } else {
        entries
    }
}

/// The checks that need no call to the node. `Ok(None)`: accepted without
/// examination, validation being switched off. `Ok(Some(txid))`: the node
/// has to be asked about the transaction with this id.
pub open spec fn local_outcome(
    config: ValidationConfig,
    entries: Seq<(Seq<char>, u64)>,
    text: Seq<char>,
    now: u64,
) -> Result<Option<Seq<char>>, Failure> {
    if !config.enable_validation {
        Ok(None)
    } else {
        match extract_outcome(text) {
            Err(e) => Err(e),
            Ok(txid) => match gate_outcome(config, entries, txid, text, now) {
                Err(e) => Err(e),
                Ok(_) => Ok(Some(txid)),
            },
        }
    }
}

/// The whole pipeline, given the node's answer for the case that the node
/// is asked.
pub open spec fn validation_outcome(
    config: ValidationConfig,
    entries: Seq<(Seq<char>, u64)>,
    text: Seq<char>,
    now: u64,
    reply: CoreReply,
) -> Result<(), Failure> {
    if !config.enable_validation {
        Ok(())
    } else {
        match extract_outcome(text) {
            Err(e) => Err(e),
            Ok(txid) => pipeline_outcome(config, entries, txid, text, now, reply),
        }
    }
}

/// The cache after the whole pipeline has run.
pub open spec fn cache_after_validation(
    config: ValidationConfig,
    entries: Seq<(Seq<char>, u64)>,
    capacity: nat,
    text: Seq<char>,
    now: u64,
    reply: CoreReply,
) -> Seq<(Seq<char>, u64)> {
    if !config.enable_validation {
        entries
    } else {
        match extract_outcome(text) {
            Err(_) => entries,
            Ok(txid) => cache_after_pipeline(config, entries, capacity, txid, text, now, reply),
        }
    }
}

/// The capacity that a configured cache size stands for.
pub open spec fn effective_capacity(cache_size: usize) -> nat {
    if cache_size == 0 {
        FALLBACK_CACHE_SIZE as nat
    } else {
        cache_size as nat
    }
}

/// The validator: a configuration, the node's address, and the cache of
/// recently validated transaction ids.
pub struct TransactionValidator {
    config: ValidationConfig,
    bitcoin_rpc_url: String,
    tx_cache: LruCache<String, u64>,
}

impl TransactionValidator {
    /// The configuration.
    pub closed spec fn config(&self) -> ValidationConfig {
        self.config
    }

    /// The address of the node's RPC endpoint.
    pub closed spec fn rpc_url(&self) -> Seq<char> {
        self.bitcoin_rpc_url@
    }

    /// The cached entries, the most recently stored first.
    pub closed spec fn cached(&self) -> Seq<(Seq<char>, u64)> {
        lru_entries(self.tx_cache)
    }

    /// The most entries the cache holds.
    pub closed spec fn capacity(&self) -> nat {
        lru_capacity(self.tx_cache)
    }

    /// The cache is as large as the configuration asks, holds no more than
    /// that, and holds no transaction id twice.
    pub closed spec fn wf(&self) -> bool {
        &&& lru_capacity(self.tx_cache) == effective_capacity(self.config.cache_size)
        &&& fits_cache(lru_entries(self.tx_cache), lru_capacity(self.tx_cache))
    }

    /// What a well-formed validator's cache looks like.
    pub proof fn wf_bounds(&self)
        requires
            self.wf(),
        ensures
            self.capacity() == effective_capacity(self.config().cache_size),
            fits_cache(self.cached(), self.capacity()),
    {
    }

    /// A validator with an empty cache for the node on the given local
    /// port.
    pub fn new(config: ValidationConfig, bitcoin_port: u16) -> (validator: TransactionValidator)
        ensures
            validator.config() == config,
            validator.rpc_url() == "http://127.0.0.1:"@ + decimal_digits(bitcoin_port as nat),
            validator.cached() == Seq::<(Seq<char>, u64)>::empty(),
            validator.capacity() == effective_capacity(config.cache_size),
            validator.wf(),
    {
        let mut bitcoin_rpc_url = String::from_str("http://127.0.0.1:");
        let port = decimal_text(bitcoin_port as u64);
        bitcoin_rpc_url.append(port.as_str());
        let capacity: usize = if config.cache_size == 0 {
            FALLBACK_CACHE_SIZE
        } else {
            config.cache_size
        };
        TransactionValidator { config, bitcoin_rpc_url, tx_cache: lru_new(capacity) }
    }

    /// The node's RPC address.
    pub fn bitcoin_rpc_url(&self) -> (url: &str)
        ensures
            url@ == self.rpc_url(),
    {
        self.bitcoin_rpc_url.as_str()
    }

    /// The configuration this validator was made with.
    pub fn configuration(&self) -> (config: &ValidationConfig)
        ensures
            *config == self.config(),
    {
        &self.config
    }

    /// The checks that need no call to the node: structure, the
    /// recently-processed gate and the pre-check. Tells whether the node has
    /// to be asked, and about which transaction id.
    pub fn validate_locally(&self, tx_hex: &str, now_ms: u64) -> (step: Result<
        Option<String>,
        ValidationError,
    >)
        ensures
            match step {
                Ok(Some(txid)) => local_outcome(self.config(), self.cached(), tx_hex@, now_ms)
                    == Ok::<Option<Seq<char>>, Failure>(Some(txid@)),
                Ok(None) => local_outcome(self.config(), self.cached(), tx_hex@, now_ms)
                    == Ok::<Option<Seq<char>>, Failure>(None),
                Err(e) => local_outcome(self.config(), self.cached(), tx_hex@, now_ms)
                    == Err::<Option<Seq<char>>, Failure>(e@),
            },
    {
        if !self.config.enable_validation {
            return Ok(None);
        }
        let txid = match self.extract_txid(tx_hex) {
            Ok(txid) => txid,
            Err(e) => {
                return Err(e);
            },
        };
        match self.screen(txid.as_str(), tx_hex, now_ms) {
            Ok(_) => Ok(Some(txid)),
            Err(e) => Err(e),
        }
    }

    /// The local checks on a transaction whose id has been extracted: the
    /// recently-processed gate, then the pre-check where it is switched on.
    pub fn screen(&self, txid: &str, tx_hex: &str, now_ms: u64) -> (verdict: Result<
        (),
        ValidationError,
    >)
        ensures
            verdict_view(verdict) == gate_outcome(
                self.config(),
                self.cached(),
                txid@,
                tx_hex@,
                now_ms,
            ),
    {
        if self.is_recently_processed(txid, now_ms) {
            return Err(ValidationError::RecentlyProcessed(String::from_str(txid)));
        }
        if self.config.enable_precheck {
            match self.quick_validation_checks(tx_hex) {
                Ok(_) => {},
                Err(e) => {
                    return Err(e);
                },
            }
        }
        Ok(())
    }

    /// Validates a transaction whose id has been extracted, given the
    /// node's answer to `testmempoolaccept` for it: the cache gate, the pre-check,
    /// the node's answer, and the storing of a transaction that passed.
    pub fn validate_extracted(
        &mut self,
        txid: &str,
        tx_hex: &str,
        now_ms: u64,
        reply: &CoreReply,
    ) -> (verdict: Result<(), ValidationError>)
        ensures
            verdict_view(verdict) == pipeline_outcome(
                old(self).config(),
                old(self).cached(),
                txid@,
                tx_hex@,
                now_ms,
                *reply,
            ),
            final(self).cached() == cache_after_pipeline(
                old(self).config(),
                old(self).cached(),
                old(self).capacity(),
                txid@,
                tx_hex@,
                now_ms,
                *reply,
            ),
            final(self).config() == old(self).config(),
            final(self).capacity() == old(self).capacity(),
            final(self).rpc_url() == old(self).rpc_url(),
            old(self).wf() ==> final(self).wf(),
    {
        match self.screen(txid, tx_hex, now_ms) {
            Ok(_) => {},
            Err(e) => {
                return Err(e);
            },
        }
        match Self::validate_with_bitcoin_core(reply) {
            Ok(_) => {},
            Err(e) => {
                return Err(e);
            },
        }
        self.cache_transaction(txid, now_ms);
        Ok(())
    }

    /// The whole pipeline for one submission, given the node's answer to
    /// `testmempoolaccept` for it. The answer is read only where
    /// `validate_locally` asks for the node. A transaction that passes is
    /// stored in the cache with the time of validation.
    pub fn validate(&mut self, tx_hex: &str, now_ms: u64, reply: &CoreReply) -> (verdict: Result<
        (),
        ValidationError,
    >)
        ensures
            verdict_view(verdict) == validation_outcome(
                old(self).config(),
                old(self).cached(),
                tx_hex@,
                now_ms,
                *reply,
            ),
            final(self).cached() == cache_after_validation(
                old(self).config(),
                old(self).cached(),
                old(self).capacity(),
                tx_hex@,
                now_ms,
                *reply,
            ),
            final(self).config() == old(self).config(),
            final(self).capacity() == old(self).capacity(),
            final(self).rpc_url() == old(self).rpc_url(),
            old(self).wf() ==> final(self).wf(),
    {
        if !self.config.enable_validation {
            return Ok(());
        }
        let txid = match self.extract_txid(tx_hex) {
            Ok(txid) => txid,
            Err(e) => {
                return Err(e);
            },
        };
        self.validate_extracted(txid.as_str(), tx_hex, now_ms, reply)
    }

    /// The pre-check on the submitted text.
    pub fn quick_validation_checks(&self, tx_hex: &str) -> (verdict: Result<(), ValidationError>)
        ensures
            verdict_view(verdict) == precheck_outcome(tx_hex@),
    {
        broadcast use is_ascii_spec_bytes;

        if tx_hex.is_empty() {
            return Err(ValidationError::EmptyTransaction);
        }
        if !all_hex_digits(tx_hex) {
            return Err(ValidationError::InvalidHex);
        }
        proof {
            assert forall|i: int| 0 <= i < tx_hex@.len() implies '\0' <= #[trigger] tx_hex@[i]
                <= '\u{7f}' by {
                assert(is_hex_digit(tx_hex@[i]));
            }
            assert(is_ascii(tx_hex));
            vstd::utf8::is_ascii_chars_encode_utf8(tx_hex@);
            assert(tx_hex.spec_bytes().len() == tx_hex@.len());
        }
        let byte_len: usize = tx_hex.as_bytes().len() / 2;
        if byte_len < MIN_TX_BYTES || byte_len > MAX_TX_BYTES {
            return Err(ValidationError::InvalidSize(byte_len));
        }
        Ok(())
    }

    /// Reads the node's answer to `testmempoolaccept`.
    pub fn validate_with_bitcoin_core(reply: &CoreReply) -> (verdict: Result<(), ValidationError>)
        ensures
            verdict_view(verdict) == core_outcome(*reply),
    {
        if let Some(error) = &reply.error {
            let mut text = String::from_str("RPC error: ");
            text.append(error.as_str());
            return Err(ValidationError::BitcoinCoreRejection(text));
        }
        let results = match &reply.result {
            Some(results) => results,
            None => {
                return Err(
                    ValidationError::BitcoinCoreRejection(
                        String::from_str("Invalid response format"),
                    ),
                );
            },
        };
        if results.len() == 0 {
            return Err(ValidationError::BitcoinCoreRejection(String::from_str("Empty response")));
        }
        let first = &results[0];
        let allowed = match first.allowed {
            Some(flag) => flag,
            None => false,
        };
        if allowed {
            Ok(())
        } else {
            match &first.reject_reason {
                Some(reason) => Err(ValidationError::BitcoinCoreRejection(reason.clone())),
                None => Err(
                    ValidationError::BitcoinCoreRejection(String::from_str("unknown reason")),
                ),
            }
        }
    }

    /// The canonical id of the transaction that the hex text encodes.
    pub fn extract_txid(&self, tx_hex: &str) -> (txid: Result<String, ValidationError>)
        ensures
            txid_view(txid) == extract_outcome(tx_hex@),
    {
        let tx_bytes = match hex_decode(tx_hex) {
            Some(bytes) => bytes,
            None => {
                return Err(ValidationError::InvalidHex);
            },
        };
        Self::txid_of_decoded(decode_transaction(tx_bytes.as_slice()))
    }

    /// The id of a deserialized transaction; bytes that did not deserialize
    /// are an invalid structure.
    pub fn txid_of_decoded(decoded: Option<TxSummary>) -> (txid: Result<String, ValidationError>)
        ensures
            txid_view(txid) == match decoded {
                Some(tx) => Ok::<Seq<char>, Failure>(tx.txid@),
                None => Err::<Seq<char>, Failure>(Failure::InvalidStructure),
            },
    {
        match decoded {
            Some(tx) => Ok(tx.txid),
            None => Err(ValidationError::InvalidStructure),
        }
    }

    /// Whether the transaction id was validated less than the time to live
    /// ago.
    pub fn is_recently_processed(&self, txid: &str, now_ms: u64) -> (recent: bool)
        ensures
            recent == is_recent(self.cached(), self.config().cache_ttl_seconds, txid@, now_ms),
    {
        match lru_peek(&self.tx_cache, txid) {
            Some(first_seen) => {
                let elapsed: u64 = if now_ms >= first_seen {
                    now_ms - first_seen
                } else {
                    0
                };
                elapsed / 1000 < self.config.cache_ttl_seconds
            },
            None => false,
        }
    }

    /// Stores the transaction id with the time given, as the most recent
    /// entry.
    pub fn cache_transaction(&mut self, txid: &str, now_ms: u64)
        ensures
            final(self).cached() == entries_after_put(
                old(self).cached(),
                old(self).capacity(),
                txid@,
                now_ms,
            ),
            final(self).config() == old(self).config(),
            final(self).capacity() == old(self).capacity(),
            final(self).rpc_url() == old(self).rpc_url(),
            old(self).wf() ==> final(self).wf(),
    {
        let key = String::from_str(txid);
        proof {
            if self.wf() {
                put_fits_cache(
                    lru_entries(self.tx_cache),
                    lru_capacity(self.tx_cache),
                    txid@,
                    now_ms,
                );
            }
        }
        let _ = lru_put(&mut self.tx_cache, key, now_ms);
    }
}

/// A key that has just been put is found, with the value it was put with.
pub proof fn put_is_found(
    entries: Seq<(Seq<char>, u64)>,
    capacity: nat,
    key: Seq<char>,
    value: u64,
)
    ensures
        entry_value(entries_after_put(entries, capacity, key, value), key) == Some(value),
{
    let after = entries_after_put(entries, capacity, key, value);
    assert(after[0] == (key, value));
    assert(key_position(after, key) == 0);
}

/// The node is asked only about transactions that are not recent: where
/// the local checks ask for the node, the transaction id is not held by the
/// cache, or its time to live has run out.
pub proof fn node_is_asked_only_about_unseen(
    config: ValidationConfig,
    entries: Seq<(Seq<char>, u64)>,
    text: Seq<char>,
    now: u64,
)
    requires
        local_outcome(config, entries, text, now) matches Ok(Some(_)),
    ensures
        extract_outcome(text) is Ok,
        local_outcome(config, entries, text, now) == Ok::<Option<Seq<char>>, Failure>(
            Some(extract_outcome(text)->Ok_0),
        ),
        !is_recent(entries, config.cache_ttl_seconds, extract_outcome(text)->Ok_0, now),
{
}

/// Validation is idempotent within the time to live: once a submission has
/// passed, a submission of a transaction with the same id (the same text or
/// another encoding of it) that follows within the time to live is turned
/// away as recently processed, whatever the node would answer.
pub proof fn second_validation_is_recently_processed(
    config: ValidationConfig,
    entries: Seq<(Seq<char>, u64)>,
    capacity: nat,
    text: Seq<char>,
    first_ms: u64,
    reply: CoreReply,
    again: Seq<char>,
    second_ms: u64,
    second_reply: CoreReply,
)
    requires
        config.enable_validation,
        validation_outcome(config, entries, text, first_ms, reply) is Ok,
        extract_outcome(again) == extract_outcome(text),
        first_ms <= second_ms < first_ms + config.cache_ttl_seconds * 1000,
    ensures
        extract_outcome(text) is Ok,
        validation_outcome(
            config,
            cache_after_validation(config, entries, capacity, text, first_ms, reply),
            again,
            second_ms,
            second_reply,
        ) == Err::<(), Failure>(Failure::RecentlyProcessed(extract_outcome(text)->Ok_0)),
{
    let txid = extract_outcome(text)->Ok_0;
    put_is_found(entries, capacity, txid, first_ms);
}

/// The node is asked at most once per transaction id and time to live:
/// once a submission has passed, the local checks on a transaction with the
/// same id end without asking for the node for as long as the time to live
/// lasts.
pub proof fn node_is_asked_once_per_window(
    config: ValidationConfig,
    entries: Seq<(Seq<char>, u64)>,
    capacity: nat,
    text: Seq<char>,
    first_ms: u64,
    reply: CoreReply,
    again: Seq<char>,
    second_ms: u64,
)
    requires
        config.enable_validation,
        validation_outcome(config, entries, text, first_ms, reply) is Ok,
        extract_outcome(again) == extract_outcome(text),
        first_ms <= second_ms < first_ms + config.cache_ttl_seconds * 1000,
    ensures
        local_outcome(
            config,
            cache_after_validation(config, entries, capacity, text, first_ms, reply),
            again,
            second_ms,
        ) is Err,
{
    let txid = extract_outcome(text)->Ok_0;
    put_is_found(entries, capacity, txid, first_ms);
}

/// Once the time to live has run out, the cached entry no longer stops a
/// submission.
pub proof fn expired_entry_is_not_recent(
    entries: Seq<(Seq<char>, u64)>,
    ttl_seconds: u64,
    txid: Seq<char>,
    seen: u64,
    now: u64,
)
    requires
        entry_value(entries, txid) == Some(seen),
        now >= seen + ttl_seconds * 1000,
    ensures
        !is_recent(entries, ttl_seconds, txid, now),
{
}

/// Storing another transaction does not end a transaction's time as
/// recently processed, unless the cache is full and drops it as the least
/// recently stored.
pub proof fn recent_survives_other_entries(
    entries: Seq<(Seq<char>, u64)>,
    capacity: nat,
    ttl_seconds: u64,
    txid: Seq<char>,
    now: u64,
    other: Seq<char>,
    stored_at: u64,
)
    requires
        fits_cache(entries, capacity),
        other != txid,
        entry_value(entries, other) is Some || entries.len() < capacity || key_position(
            entries,
            txid,
        ) != entries.len() - 1,
    ensures
        is_recent(entries_after_put(entries, capacity, other, stored_at), ttl_seconds, txid, now)
            == is_recent(entries, ttl_seconds, txid, now),
{
    put_keeps_other_entries(entries, capacity, other, stored_at, txid);
}

} // verus!
