use agent_registry::brc20_builders::Brc20RevealBuilder;
use agent_registry::brc20_builders::Brc20TransferBuilder;
use agent_registry::inscription::OrdinalInscriptionTransferDestination;

#[test]
fn reveal_builder_defaults() {
    let b = Brc20RevealBuilder::new();
    assert_eq!(b.inscription_number.classic, 0);
    assert_eq!(b.inscription_number.jubilee, 0);
    assert_eq!(
        b.inscriber_address,
        Some("324A7GHA2azecbVBAFy4pzEhcPT1GjbUAp".to_string())
    );
    assert_eq!(
        b.inscription_id,
        "9bb2314d666ae0b1db8161cb373fcc1381681f71445c4e0335aa80ea9c37fcddi0"
    );
    assert_eq!(b.ordinal_number, 0);
    assert!(b.parents.is_empty());
}

#[test]
fn reveal_builder_setters_override_one_field() {
    let b = Brc20RevealBuilder::new()
        .inscription_number(7)
        .inscriber_address(None)
        .inscription_id("abcdi0")
        .ordinal_number(99)
        .parents(vec!["p1".to_string()]);
    assert_eq!(b.inscription_number.classic, 7);
    assert_eq!(b.inscription_number.jubilee, 7);
    assert_eq!(b.inscriber_address, None);
    assert_eq!(b.inscription_id, "abcdi0");
    assert_eq!(b.ordinal_number, 99);
    assert_eq!(b.parents, vec!["p1".to_string()]);
}

#[test]
fn reveal_build_fills_fixture_fields() {
    let d = Brc20RevealBuilder::new().ordinal_number(5).build();
    assert_eq!(d.content_bytes, "");
    assert_eq!(d.content_type, "text/plain");
    assert_eq!(d.content_length, 10);
    assert_eq!(d.inscription_fee, 100);
    assert_eq!(d.inscription_output_value, 10000);
    assert_eq!(d.inscription_input_index, 0);
    assert_eq!(d.inscription_pointer, None);
    assert_eq!(d.delegate, None);
    assert_eq!(d.metaprotocol, None);
    assert_eq!(d.metadata, None);
    assert_eq!(d.ordinal_number, 5);
    assert_eq!(d.ordinal_block_height, 767430);
    assert_eq!(d.ordinal_offset, 0);
    assert_eq!(d.tx_index, 0);
    assert_eq!(d.transfers_pre_inscription, 0);
    assert_eq!(
        d.satpoint_post_inscription,
        "9bb2314d666ae0b1db8161cb373fcc1381681f71445c4e0335aa80ea9c37fcdd:0:0"
    );
    assert_eq!(d.curse_type, None);
    assert_eq!(d.charms, 0);
    assert_eq!(d.unbound_sequence, None);
}

#[test]
fn reveal_builder_default_matches_new() {
    let d = Brc20RevealBuilder::default();
    let n = Brc20RevealBuilder::new();
    assert_eq!(d.inscription_id, n.inscription_id);
    assert_eq!(d.inscriber_address, n.inscriber_address);
}

#[test]
fn transfer_builder_defaults() {
    let b = Brc20TransferBuilder::new();
    assert_eq!(b.ordinal_number, 0);
    assert_eq!(
        b.destination,
        OrdinalInscriptionTransferDestination::Transferred(
            "bc1pls75sfwullhygkmqap344f5cqf97qz95lvle6fvddm0tpz2l5ffslgq3m0".to_string()
        )
    );
    assert_eq!(
        b.satpoint_post_transfer,
        "e45957c419f130cd5c88cdac3eb1caf2d118aee20c17b15b74a611be395a065d:0:0"
    );
    assert_eq!(b.tx_index, 0);
}

#[test]
fn transfer_build_fills_fixture_fields() {
    let t = Brc20TransferBuilder::new()
        .ordinal_number(3)
        .destination(OrdinalInscriptionTransferDestination::SpentInFees)
        .tx_index(8)
        .build();
    assert_eq!(t.ordinal_number, 3);
    assert_eq!(t.destination, OrdinalInscriptionTransferDestination::SpentInFees);
    assert_eq!(t.satpoint_pre_transfer, "");
    assert_eq!(
        t.satpoint_post_transfer,
        "e45957c419f130cd5c88cdac3eb1caf2d118aee20c17b15b74a611be395a065d:0:0"
    );
    assert_eq!(t.post_transfer_output_value, Some(500));
    assert_eq!(t.tx_index, 8);
}

#[test]
fn transfer_builder_default_matches_new() {
    let d = Brc20TransferBuilder::default();
    let n = Brc20TransferBuilder::new();
    assert_eq!(d.satpoint_post_transfer, n.satpoint_post_transfer);
    assert_eq!(d.destination, n.destination);
}
