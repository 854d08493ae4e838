use vstd::prelude::*;

verus! {

/// An inscription's number under both numbering schemes.
#[derive(Clone, Copy, Debug, PartialEq, Eq)]
pub struct OrdinalInscriptionNumber {
    pub classic: i64,
    pub jubilee: i64,
}

/// Where a transferred inscription ended up.
#[derive(Clone, Debug, PartialEq, Eq)]
pub enum OrdinalInscriptionTransferDestination {
    Transferred(String),
    SpentInFees,
    Burnt(String),
}

/// Everything recorded when an inscription is revealed.
#[derive(Clone, Debug, PartialEq, Eq)]
pub struct OrdinalInscriptionRevealData {
    pub content_bytes: String,
    pub content_type: String,
    pub content_length: usize,
    pub inscription_number: OrdinalInscriptionNumber,
    pub inscription_fee: u64,
    pub inscription_output_value: u64,
    pub inscription_id: String,
    pub inscription_input_index: usize,
    pub inscription_pointer: Option<u64>,
    pub inscriber_address: Option<String>,
    pub delegate: Option<String>,
    pub metaprotocol: Option<String>,
    pub metadata: Option<String>,
    pub parents: Vec<String>,
    pub ordinal_number: u64,
    pub ordinal_block_height: u64,
    pub ordinal_offset: u64,
    pub tx_index: usize,
    pub transfers_pre_inscription: u32,
    pub satpoint_post_inscription: String,
    pub curse_type: Option<String>,
    pub charms: u32,
    pub unbound_sequence: Option<i64>,
}

/// Everything recorded when an inscription changes hands.
#[derive(Clone, Debug, PartialEq, Eq)]
pub struct OrdinalInscriptionTransferData {
    pub ordinal_number: u64,
    pub destination: OrdinalInscriptionTransferDestination,
    pub satpoint_pre_transfer: String,
    pub satpoint_post_transfer: String,
    pub post_transfer_output_value: Option<u64>,
    pub tx_index: usize,
}

} // verus!
