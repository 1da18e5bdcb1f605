use vstd::prelude::*;

verus! {

/// Default minimum acceptable fee rate when claiming with zero-conf, in
/// millisatoshi per virtual byte (testnet: 0.1 sat/vbyte).
pub const DEFAULT_ZERO_CONF_MIN_FEE_RATE_MSAT_TESTNET: u64 = 100;
/// Default minimum acceptable fee rate when claiming with zero-conf, in
/// millisatoshi per virtual byte (mainnet: 0.01 sat/vbyte).
pub const DEFAULT_ZERO_CONF_MIN_FEE_RATE_MSAT_MAINNET: u64 = 10;
/// Default maximum acceptable amount in satoshi when claiming with zero-conf.
pub const DEFAULT_ZERO_CONF_MAX_SAT: u64 = 100_000;

/// Lifecycle state of a swap. `Created` is assigned at birth only; `Failed`
/// is reachable from every state as a universal override.
#[derive(Clone, Copy, Debug, PartialEq, Eq, Structural)]
pub enum PaymentState {
    Created,
    Pending,
    Complete,
    Failed,
    TimedOut,
}

/// Stable small-integer encoding of `PaymentState`, used by persistent
/// storage. Changing these values would break existing stored data.
pub open spec fn spec_state_code(s: PaymentState) -> u8 {
    match s {
        PaymentState::Created => 0,
        PaymentState::Pending => 1,
        PaymentState::Complete => 2,
        PaymentState::Failed => 3,
        PaymentState::TimedOut => 4,
    }
}

pub open spec fn spec_state_from_code(c: u8) -> Option<PaymentState> {
    if c == 0 {
        Some(PaymentState::Created)
    } else if c == 1 {
        Some(PaymentState::Pending)
    } else if c == 2 {
        Some(PaymentState::Complete)
    } else if c == 3 {
        Some(PaymentState::Failed)
    } else if c == 4 {
        Some(PaymentState::TimedOut)
    } else {
        None
    }
}

pub fn state_to_code(s: PaymentState) -> (r: u8)
    ensures
        r == spec_state_code(s),
{
    match s {
        PaymentState::Created => 0,
        PaymentState::Pending => 1,
        PaymentState::Complete => 2,
        PaymentState::Failed => 3,
        PaymentState::TimedOut => 4,
    }
}

pub fn state_from_code(c: u8) -> (r: Option<PaymentState>)
    ensures
        r == spec_state_from_code(c),
{
    if c == 0 {
        Some(PaymentState::Created)
    } else if c == 1 {
        Some(PaymentState::Pending)
    } else if c == 2 {
        Some(PaymentState::Complete)
    } else if c == 3 {
        Some(PaymentState::Failed)
    } else if c == 4 {
        Some(PaymentState::TimedOut)
    } else {
        None
    }
}

/// Direction of a payment.
#[derive(Clone, Copy, Debug, PartialEq, Eq, Structural)]
pub enum PaymentType {
    Send,
    Receive,
}

/// Stable small-integer encoding of `PaymentType`, used by persistent
/// storage. Changing these values would break existing stored data.
pub open spec fn spec_payment_type_code(t: PaymentType) -> u8 {
    match t {
        PaymentType::Send => 0,
        PaymentType::Receive => 1,
    }
}

pub open spec fn spec_payment_type_from_code(c: u8) -> Option<PaymentType> {
    if c == 0 {
        Some(PaymentType::Send)
    } else if c == 1 {
        Some(PaymentType::Receive)
    } else {
        None
    }
}

pub fn payment_type_to_code(t: PaymentType) -> (r: u8)
    ensures
        r == spec_payment_type_code(t),
{
    match t {
        PaymentType::Send => 0,
        PaymentType::Receive => 1,
    }
}

pub fn payment_type_from_code(c: u8) -> (r: Option<PaymentType>)
    ensures
        r == spec_payment_type_from_code(c),
{
    if c == 0 {
        Some(PaymentType::Send)
    } else if c == 1 {
        Some(PaymentType::Receive)
    } else {
        None
    }
}

/// The Liquid network a configuration targets.
#[derive(Clone, Copy, Debug, PartialEq, Eq, Structural)]
pub enum LiquidNetwork {
    Mainnet,
    Testnet,
}

/// Zero-conf configuration. The fee rate is kept in millisatoshi per virtual
/// byte so that the claim heuristic works on exact integers.
#[derive(Clone, Copy, Debug)]
pub struct Config {
    pub network: LiquidNetwork,
    pub zero_conf_min_fee_rate_msat_per_vbyte: u64,
    pub zero_conf_max_amount_sat: Option<u64>,
}

impl Config {
    /// The configured zero-conf amount ceiling, or the default.
    pub open spec fn spec_zero_conf_max_amount_sat(self) -> u64 {
        match self.zero_conf_max_amount_sat {
            Some(m) => m,
            None => DEFAULT_ZERO_CONF_MAX_SAT,
        }
    }

    pub fn zero_conf_max_amount(&self) -> (r: u64)
        ensures
            r == self.spec_zero_conf_max_amount_sat(),
    {
        match self.zero_conf_max_amount_sat {
            Some(m) => m,
            None => DEFAULT_ZERO_CONF_MAX_SAT,
        }
    }

    pub fn mainnet() -> (r: Config)
        ensures
            r.network == LiquidNetwork::Mainnet,
            r.zero_conf_min_fee_rate_msat_per_vbyte == DEFAULT_ZERO_CONF_MIN_FEE_RATE_MSAT_MAINNET,
            r.zero_conf_max_amount_sat is None,
    {
        Config {
            network: LiquidNetwork::Mainnet,
            zero_conf_min_fee_rate_msat_per_vbyte: DEFAULT_ZERO_CONF_MIN_FEE_RATE_MSAT_MAINNET,
            zero_conf_max_amount_sat: None,
        }
    }

    pub fn testnet() -> (r: Config)
        ensures
            r.network == LiquidNetwork::Testnet,
            r.zero_conf_min_fee_rate_msat_per_vbyte == DEFAULT_ZERO_CONF_MIN_FEE_RATE_MSAT_TESTNET,
            r.zero_conf_max_amount_sat is None,
    {
        Config {
            network: LiquidNetwork::Testnet,
            zero_conf_min_fee_rate_msat_per_vbyte: DEFAULT_ZERO_CONF_MIN_FEE_RATE_MSAT_TESTNET,
            zero_conf_max_amount_sat: None,
        }
    }
}

/// Spec-level view of an `Option<String>` as an optional character sequence.
pub open spec fn opt_str_view(o: Option<String>) -> Option<Seq<char>> {
    match o {
        Some(s) => Some(s@),
        None => None,
    }
}

/// Spec-level view of an `Option<&str>` argument.
pub open spec fn opt_ref_view(o: Option<&str>) -> Option<Seq<char>> {
    match o {
        Some(s) => Some(s@),
        None => None,
    }
}

/// Clones an optional string, preserving its view.
pub fn clone_opt_string(o: &Option<String>) -> (r: Option<String>)
    ensures
        opt_str_view(r) == opt_str_view(*o),
{
    match o {
        Some(s) => Some(s.clone()),
        None => None,
    }
}

/// Status of a reverse (receive) swap as reported by the counterparty's
/// status feed, parsed from its protocol string.
#[derive(Clone, Copy, Debug, PartialEq, Eq, Structural)]
pub enum RevSwapStatus {
    Created,
    MinerFeePaid,
    TransactionMempool,
    TransactionConfirmed,
    InvoiceSettled,
    InvoiceExpired,
    SwapExpired,
    TransactionFailed,
    TransactionRefunded,
}

pub open spec fn spec_parse_rev_swap_status(s: Seq<char>) -> Option<RevSwapStatus> {
    if s == "swap.created"@ {
        Some(RevSwapStatus::Created)
    } else if s == "minerfee.paid"@ {
        Some(RevSwapStatus::MinerFeePaid)
    } else if s == "transaction.mempool"@ {
        Some(RevSwapStatus::TransactionMempool)
    } else if s == "transaction.confirmed"@ {
        Some(RevSwapStatus::TransactionConfirmed)
    } else if s == "invoice.settled"@ {
        Some(RevSwapStatus::InvoiceSettled)
    } else if s == "invoice.expired"@ {
        Some(RevSwapStatus::InvoiceExpired)
    } else if s == "swap.expired"@ {
        Some(RevSwapStatus::SwapExpired)
    } else if s == "transaction.failed"@ {
        Some(RevSwapStatus::TransactionFailed)
    } else if s == "transaction.refunded"@ {
        Some(RevSwapStatus::TransactionRefunded)
    } else {
        None
    }
}

/// Parses a protocol status string; unrecognized strings yield `None`.
pub fn parse_rev_swap_status(s: &str) -> (r: Option<RevSwapStatus>)
    ensures
        r == spec_parse_rev_swap_status(s@),
{
    if crate::text::str_eq(s, "swap.created") {
        Some(RevSwapStatus::Created)
    } else if crate::text::str_eq(s, "minerfee.paid") {
        Some(RevSwapStatus::MinerFeePaid)
    } else if crate::text::str_eq(s, "transaction.mempool") {
        Some(RevSwapStatus::TransactionMempool)
    } else if crate::text::str_eq(s, "transaction.confirmed") {
        Some(RevSwapStatus::TransactionConfirmed)
    } else if crate::text::str_eq(s, "invoice.settled") {
        Some(RevSwapStatus::InvoiceSettled)
    } else if crate::text::str_eq(s, "invoice.expired") {
        Some(RevSwapStatus::InvoiceExpired)
    } else if crate::text::str_eq(s, "swap.expired") {
        Some(RevSwapStatus::SwapExpired)
    } else if crate::text::str_eq(s, "transaction.failed") {
        Some(RevSwapStatus::TransactionFailed)
    } else if crate::text::str_eq(s, "transaction.refunded") {
        Some(RevSwapStatus::TransactionRefunded)
    } else {
        None
    }
}

/// States in which the counterparty reports the swap as unrecoverable; the
/// handler maps them all to `Failed`.
pub open spec fn spec_is_unrecoverable(s: RevSwapStatus) -> bool {
    ||| s is SwapExpired
    ||| s is InvoiceExpired
    ||| s is TransactionFailed
    ||| s is TransactionRefunded
}

pub fn is_unrecoverable(s: RevSwapStatus) -> (r: bool)
    ensures
        r == spec_is_unrecoverable(s),
{
    match s {
        RevSwapStatus::SwapExpired => true,
        RevSwapStatus::InvoiceExpired => true,
        RevSwapStatus::TransactionFailed => true,
        RevSwapStatus::TransactionRefunded => true,
        _ => false,
    }
}

/// A receive-direction swap record.
pub struct ReceiveSwap {
    pub id: String,
    pub preimage: String,
    pub create_response_json: String,
    pub claim_private_key: String,
    pub invoice: String,
    pub payer_amount_sat: u64,
    pub receiver_amount_sat: u64,
    pub claim_fees_sat: u64,
    /// Write-once: id of the broadcast claim transaction.
    pub claim_tx_id: Option<String>,
    /// Write-once: id of the transaction that funded escrow.
    pub lockup_tx_id: Option<String>,
    pub created_at: u32,
    pub state: PaymentState,
}

/// Mathematical view of a receive swap record.
pub struct ReceiveSwapV {
    pub id: Seq<char>,
    pub preimage: Seq<char>,
    pub create_response_json: Seq<char>,
    pub claim_private_key: Seq<char>,
    pub invoice: Seq<char>,
    pub payer_amount_sat: u64,
    pub receiver_amount_sat: u64,
    pub claim_fees_sat: u64,
    pub claim_tx_id: Option<Seq<char>>,
    pub lockup_tx_id: Option<Seq<char>>,
    pub created_at: u32,
    pub state: PaymentState,
}

impl View for ReceiveSwap {
    type V = ReceiveSwapV;

    open spec fn view(&self) -> ReceiveSwapV {
        ReceiveSwapV {
            id: self.id@,
            preimage: self.preimage@,
            create_response_json: self.create_response_json@,
            claim_private_key: self.claim_private_key@,
            invoice: self.invoice@,
            payer_amount_sat: self.payer_amount_sat,
            receiver_amount_sat: self.receiver_amount_sat,
            claim_fees_sat: self.claim_fees_sat,
            claim_tx_id: opt_str_view(self.claim_tx_id),
            lockup_tx_id: opt_str_view(self.lockup_tx_id),
            created_at: self.created_at,
            state: self.state,
        }
    }
}

impl Clone for ReceiveSwap {
    fn clone(&self) -> (r: Self)
        ensures
            r@ == self@,
    {
        ReceiveSwap {
            id: self.id.clone(),
            preimage: self.preimage.clone(),
            create_response_json: self.create_response_json.clone(),
            claim_private_key: self.claim_private_key.clone(),
            invoice: self.invoice.clone(),
            payer_amount_sat: self.payer_amount_sat,
            receiver_amount_sat: self.receiver_amount_sat,
            claim_fees_sat: self.claim_fees_sat,
            claim_tx_id: clone_opt_string(&self.claim_tx_id),
            lockup_tx_id: clone_opt_string(&self.lockup_tx_id),
            created_at: self.created_at,
            state: self.state,
        }
    }
}

/// A chain-direction swap record.
pub struct ChainSwap {
    pub id: String,
    pub payment_type: PaymentType,
    pub address: String,
    pub preimage: String,
    pub payer_amount_sat: u64,
    pub receiver_amount_sat: u64,
    pub create_response_json: String,
    pub claim_private_key: String,
    pub refund_private_key: String,
    /// Write-once: id of the transaction that funded escrow.
    pub lockup_tx_id: Option<String>,
    /// Write-once: id of the outgoing refund transaction.
    pub refund_tx_id: Option<String>,
    pub created_at: u32,
    pub state: PaymentState,
}

/// Mathematical view of a chain swap record.
pub struct ChainSwapV {
    pub id: Seq<char>,
    pub payment_type: PaymentType,
    pub address: Seq<char>,
    pub preimage: Seq<char>,
    pub payer_amount_sat: u64,
    pub receiver_amount_sat: u64,
    pub create_response_json: Seq<char>,
    pub claim_private_key: Seq<char>,
    pub refund_private_key: Seq<char>,
    pub lockup_tx_id: Option<Seq<char>>,
    pub refund_tx_id: Option<Seq<char>>,
    pub created_at: u32,
    pub state: PaymentState,
}

impl View for ChainSwap {
    type V = ChainSwapV;

    open spec fn view(&self) -> ChainSwapV {
        ChainSwapV {
            id: self.id@,
            payment_type: self.payment_type,
            address: self.address@,
            preimage: self.preimage@,
            payer_amount_sat: self.payer_amount_sat,
            receiver_amount_sat: self.receiver_amount_sat,
            create_response_json: self.create_response_json@,
            claim_private_key: self.claim_private_key@,
            refund_private_key: self.refund_private_key@,
            lockup_tx_id: opt_str_view(self.lockup_tx_id),
            refund_tx_id: opt_str_view(self.refund_tx_id),
            created_at: self.created_at,
            state: self.state,
        }
    }
}

impl Clone for ChainSwap {
    fn clone(&self) -> (r: Self)
        ensures
            r@ == self@,
    {
        ChainSwap {
            id: self.id.clone(),
            payment_type: self.payment_type,
            address: self.address.clone(),
            preimage: self.preimage.clone(),
            payer_amount_sat: self.payer_amount_sat,
            receiver_amount_sat: self.receiver_amount_sat,
            create_response_json: self.create_response_json.clone(),
            claim_private_key: self.claim_private_key.clone(),
            refund_private_key: self.refund_private_key.clone(),
            lockup_tx_id: clone_opt_string(&self.lockup_tx_id),
            refund_tx_id: clone_opt_string(&self.refund_tx_id),
            created_at: self.created_at,
            state: self.state,
        }
    }
}

/// A provisional, user-visible payment ledger entry, inserted when a claim is
/// broadcast so that balances reflect it before the wallet's chain scan does.
pub struct PaymentTxData {
    pub tx_id: String,
    pub timestamp: Option<u32>,
    pub amount_sat: u64,
    pub fees_sat: u64,
    pub payment_type: PaymentType,
    pub is_confirmed: bool,
}

/// Mathematical view of a payment ledger entry.
pub struct PaymentTxDataV {
    pub tx_id: Seq<char>,
    pub timestamp: Option<u32>,
    pub amount_sat: u64,
    pub fees_sat: u64,
    pub payment_type: PaymentType,
    pub is_confirmed: bool,
}

impl View for PaymentTxData {
    type V = PaymentTxDataV;

    open spec fn view(&self) -> PaymentTxDataV {
        PaymentTxDataV {
            tx_id: self.tx_id@,
            timestamp: self.timestamp,
            amount_sat: self.amount_sat,
            fees_sat: self.fees_sat,
            payment_type: self.payment_type,
            is_confirmed: self.is_confirmed,
        }
    }
}

impl Clone for PaymentTxData {
    fn clone(&self) -> (r: Self)
        ensures
            r@ == self@,
    {
        PaymentTxData {
            tx_id: self.tx_id.clone(),
            timestamp: self.timestamp,
            amount_sat: self.amount_sat,
            fees_sat: self.fees_sat,
            payment_type: self.payment_type,
            is_confirmed: self.is_confirmed,
        }
    }
}

/// Kind of payload carried by a status event.
#[derive(Clone, Copy, Debug, PartialEq, Eq, Structural)]
pub enum PayloadKind {
    Mempool,
    Confirmed,
}

/// Transaction payload of a status event.
pub struct UpdatePayload {
    pub kind: PayloadKind,
    pub tx_id: Option<String>,
    pub raw_tx_hex: Option<String>,
}

/// Mathematical view of a status event payload.
pub struct UpdatePayloadV {
    pub kind: PayloadKind,
    pub tx_id: Option<Seq<char>>,
    pub raw_tx_hex: Option<Seq<char>>,
}

impl View for UpdatePayload {
    type V = UpdatePayloadV;

    open spec fn view(&self) -> UpdatePayloadV {
        UpdatePayloadV {
            kind: self.kind,
            tx_id: opt_str_view(self.tx_id),
            raw_tx_hex: opt_str_view(self.raw_tx_hex),
        }
    }
}

/// A status event from the external swap-provider status feed.
pub struct Update {
    pub swap_id: String,
    pub status: String,
    pub payload: Option<UpdatePayload>,
}

/// Mathematical view of a status event.
pub struct UpdateV {
    pub swap_id: Seq<char>,
    pub status: Seq<char>,
    pub payload: Option<UpdatePayloadV>,
}

impl View for Update {
    type V = UpdateV;

    open spec fn view(&self) -> UpdateV {
        UpdateV {
            swap_id: self.swap_id@,
            status: self.status@,
            payload: match self.payload {
                Some(p) => Some(p@),
                None => None,
            },
        }
    }
}

/// Negotiation details of one leg of a chain swap, captured at creation.
pub struct ChainSwapDetails {
    pub lockup_address: String,
    pub server_public_key: String,
    pub timeout_block_height: u32,
    pub amount_sat: u64,
}

/// Mathematical view of one leg's negotiation details.
pub struct ChainSwapDetailsV {
    pub lockup_address: Seq<char>,
    pub server_public_key: Seq<char>,
    pub timeout_block_height: u32,
    pub amount_sat: u64,
}

impl View for ChainSwapDetails {
    type V = ChainSwapDetailsV;

    open spec fn view(&self) -> ChainSwapDetailsV {
        ChainSwapDetailsV {
            lockup_address: self.lockup_address@,
            server_public_key: self.server_public_key@,
            timeout_block_height: self.timeout_block_height,
            amount_sat: self.amount_sat,
        }
    }
}

impl Clone for ChainSwapDetails {
    fn clone(&self) -> (r: Self)
        ensures
            r@ == self@,
    {
        ChainSwapDetails {
            lockup_address: self.lockup_address.clone(),
            server_public_key: self.server_public_key.clone(),
            timeout_block_height: self.timeout_block_height,
            amount_sat: self.amount_sat,
        }
    }
}

/// A chain-swap negotiation response from the counterparty: the swap id it
/// believes it created, and the details of both legs.
pub struct CreateChainResponse {
    pub id: String,
    pub claim_details: ChainSwapDetails,
    pub lockup_details: ChainSwapDetails,
}

} // verus!
