use vstd::prelude::*;

use crate::inscription::OrdinalInscriptionNumber;
use crate::inscription::OrdinalInscriptionRevealData;
use crate::inscription::OrdinalInscriptionTransferData;
use crate::inscription::OrdinalInscriptionTransferDestination;

verus! {

/// Step-by-step construction of a reveal fixture, starting from stock
/// values and overriding one field per call.
pub struct Brc20RevealBuilder {
    pub inscription_number: OrdinalInscriptionNumber,
    pub inscriber_address: Option<String>,
    pub inscription_id: String,
    pub ordinal_number: u64,
    pub parents: Vec<String>,
}

impl Brc20RevealBuilder {
    pub fn new() -> (r: Self)
        ensures
            r.inscription_number.classic == 0,
            r.inscription_number.jubilee == 0,
            r.inscriber_address matches Some(a) && a@ == "324A7GHA2azecbVBAFy4pzEhcPT1GjbUAp"@,
            r.inscription_id@ == "9bb2314d666ae0b1db8161cb373fcc1381681f71445c4e0335aa80ea9c37fcddi0"@,
            r.ordinal_number == 0,
            r.parents@.len() == 0,
    {
        Brc20RevealBuilder {
            inscription_number: OrdinalInscriptionNumber { classic: 0, jubilee: 0 },
            inscriber_address: Some("324A7GHA2azecbVBAFy4pzEhcPT1GjbUAp".to_owned()),
            inscription_id: "9bb2314d666ae0b1db8161cb373fcc1381681f71445c4e0335aa80ea9c37fcddi0".to_owned(),
            ordinal_number: 0,
            parents: Vec::new(),
        }
    }

    pub fn inscription_number(self, val: i64) -> (r: Self)
        ensures
            r.inscription_number.classic == val,
            r.inscription_number.jubilee == val,
            r.inscriber_address == self.inscriber_address,
            r.inscription_id == self.inscription_id,
            r.ordinal_number == self.ordinal_number,
            r.parents == self.parents,
    {
        Brc20RevealBuilder {
            inscription_number: OrdinalInscriptionNumber { classic: val, jubilee: val },
            ..self
        }
    }

    pub fn inscriber_address(self, val: Option<String>) -> (r: Self)
        ensures
            r.inscriber_address == val,
            r.inscription_number == self.inscription_number,
            r.inscription_id == self.inscription_id,
            r.ordinal_number == self.ordinal_number,
            r.parents == self.parents,
    {
        Brc20RevealBuilder { inscriber_address: val, ..self }
    }

    pub fn inscription_id(self, val: &str) -> (r: Self)
        ensures
            r.inscription_id@ == val@,
            r.inscription_number == self.inscription_number,
            r.inscriber_address == self.inscriber_address,
            r.ordinal_number == self.ordinal_number,
            r.parents == self.parents,
    {
        Brc20RevealBuilder { inscription_id: val.to_owned(), ..self }
    }

    pub fn ordinal_number(self, val: u64) -> (r: Self)
        ensures
            r.ordinal_number == val,
            r.inscription_number == self.inscription_number,
            r.inscriber_address == self.inscriber_address,
            r.inscription_id == self.inscription_id,
            r.parents == self.parents,
    {
        Brc20RevealBuilder { ordinal_number: val, ..self }
    }

    pub fn parents(self, val: Vec<String>) -> (r: Self)
        ensures
            r.parents == val,
            r.inscription_number == self.inscription_number,
            r.inscriber_address == self.inscriber_address,
            r.inscription_id == self.inscription_id,
            r.ordinal_number == self.ordinal_number,
    {
        Brc20RevealBuilder { parents: val, ..self }
    }

    pub fn build(self) -> (r: OrdinalInscriptionRevealData)
        ensures
            r.content_bytes@ == ""@,
            r.content_type@ == "text/plain"@,
            r.content_length == 10,
            r.inscription_number == self.inscription_number,
            r.inscription_fee == 100,
            r.inscription_output_value == 10000,
            r.inscription_id == self.inscription_id,
            r.inscription_input_index == 0,
            r.inscription_pointer is None,
            r.inscriber_address == self.inscriber_address,
            r.delegate is None,
            r.metaprotocol is None,
            r.metadata is None,
            r.parents == self.parents,
            r.ordinal_number == self.ordinal_number,
            r.ordinal_block_height == 767430,
            r.ordinal_offset == 0,
            r.tx_index == 0,
            r.transfers_pre_inscription == 0,
            r.satpoint_post_inscription@ == "9bb2314d666ae0b1db8161cb373fcc1381681f71445c4e0335aa80ea9c37fcdd:0:0"@,
            r.curse_type is None,
            r.charms == 0,
            r.unbound_sequence is None,
    {
        OrdinalInscriptionRevealData {
            content_bytes: "".to_owned(),
            content_type: "text/plain".to_owned(),
            content_length: 10,
            inscription_number: self.inscription_number,
            inscription_fee: 100,
            inscription_output_value: 10000,
            inscription_id: self.inscription_id,
            inscription_input_index: 0,
            inscription_pointer: None,
            inscriber_address: self.inscriber_address,
            delegate: None,
            metaprotocol: None,
            metadata: None,
            parents: self.parents,
            ordinal_number: self.ordinal_number,
            ordinal_block_height: 767430,
            ordinal_offset: 0,
            tx_index: 0,
            transfers_pre_inscription: 0,
            satpoint_post_inscription: "9bb2314d666ae0b1db8161cb373fcc1381681f71445c4e0335aa80ea9c37fcdd:0:0".to_owned(),
            curse_type: None,
            charms: 0,
            unbound_sequence: None,
        }
    }
}

impl Default for Brc20RevealBuilder {
    fn default() -> (r: Self)
        ensures
            r.inscription_number.classic == 0,
            r.inscription_number.jubilee == 0,
            r.inscriber_address matches Some(a) && a@ == "324A7GHA2azecbVBAFy4pzEhcPT1GjbUAp"@,
            r.inscription_id@ == "9bb2314d666ae0b1db8161cb373fcc1381681f71445c4e0335aa80ea9c37fcddi0"@,
            r.ordinal_number == 0,
            r.parents@.len() == 0,
    {
        Self::new()
    }
}

/// Step-by-step construction of a transfer fixture, starting from stock
/// values and overriding one field per call.
pub struct Brc20TransferBuilder {
    pub ordinal_number: u64,
    pub destination: OrdinalInscriptionTransferDestination,
    pub satpoint_post_transfer: String,
    pub tx_index: usize,
}

impl Brc20TransferBuilder {
    pub fn new() -> (r: Self)
        ensures
            r.ordinal_number == 0,
            r.destination matches OrdinalInscriptionTransferDestination::Transferred(a) && a@
                == "bc1pls75sfwullhygkmqap344f5cqf97qz95lvle6fvddm0tpz2l5ffslgq3m0"@,
            r.satpoint_post_transfer@ == "e45957c419f130cd5c88cdac3eb1caf2d118aee20c17b15b74a611be395a065d:0:0"@,
            r.tx_index == 0,
    {
        Brc20TransferBuilder {
            ordinal_number: 0,
            destination: OrdinalInscriptionTransferDestination::Transferred(
                "bc1pls75sfwullhygkmqap344f5cqf97qz95lvle6fvddm0tpz2l5ffslgq3m0".to_owned(),
            ),
            satpoint_post_transfer: "e45957c419f130cd5c88cdac3eb1caf2d118aee20c17b15b74a611be395a065d:0:0".to_owned(),
            tx_index: 0,
        }
    }

    pub fn ordinal_number(self, val: u64) -> (r: Self)
        ensures
            r.ordinal_number == val,
            r.destination == self.destination,
            r.satpoint_post_transfer == self.satpoint_post_transfer,
            r.tx_index == self.tx_index,
    {
        Brc20TransferBuilder { ordinal_number: val, ..self }
    }

    pub fn destination(self, val: OrdinalInscriptionTransferDestination) -> (r: Self)
        ensures
            r.destination == val,
            r.ordinal_number == self.ordinal_number,
            r.satpoint_post_transfer == self.satpoint_post_transfer,
            r.tx_index == self.tx_index,
    {
        Brc20TransferBuilder { destination: val, ..self }
    }

    pub fn tx_index(self, val: usize) -> (r: Self)
        ensures
            r.tx_index == val,
            r.ordinal_number == self.ordinal_number,
            r.destination == self.destination,
            r.satpoint_post_transfer == self.satpoint_post_transfer,
    {
        Brc20TransferBuilder { tx_index: val, ..self }
    }

    pub fn build(self) -> (r: OrdinalInscriptionTransferData)
        ensures
            r.ordinal_number == self.ordinal_number,
            r.destination == self.destination,
            r.satpoint_pre_transfer@ == ""@,
            r.satpoint_post_transfer == self.satpoint_post_transfer,
            r.post_transfer_output_value == Some(500u64),
            r.tx_index == self.tx_index,
    {
        OrdinalInscriptionTransferData {
            ordinal_number: self.ordinal_number,
            destination: self.destination,
            satpoint_pre_transfer: "".to_owned(),
            satpoint_post_transfer: self.satpoint_post_transfer,
            post_transfer_output_value: Some(500),
            tx_index: self.tx_index,
        }
    }
}

impl Default for Brc20TransferBuilder {
    fn default() -> (r: Self)
        ensures
            r.ordinal_number == 0,
            r.destination matches OrdinalInscriptionTransferDestination::Transferred(a) && a@
                == "bc1pls75sfwullhygkmqap344f5cqf97qz95lvle6fvddm0tpz2l5ffslgq3m0"@,
            r.satpoint_post_transfer@ == "e45957c419f130cd5c88cdac3eb1caf2d118aee20c17b15b74a611be395a065d:0:0"@,
            r.tx_index == 0,
    {
        Self::new()
    }
}

} // verus!
