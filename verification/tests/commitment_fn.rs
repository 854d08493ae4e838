use agent_registry::commitment::commit;

#[test]
fn commit_is_deterministic() {
    let a = b"ACGT".to_vec();
    let b = b"ACGT".to_vec();
    assert_eq!(commit(&a), commit(&a));
    assert_eq!(commit(&a), commit(&b));
}

#[test]
fn commit_of_empty_input_matches_reference_digest() {
    let empty: Vec<u8> = Vec::new();
    let expected: [u8; 32] = [
        0xe3, 0xb0, 0xc4, 0x42, 0x98, 0xfc, 0x1c, 0x14, 0x9a, 0xfb, 0xf4, 0xc8, 0x99, 0x6f, 0xb9,
        0x24, 0x27, 0xae, 0x41, 0xe4, 0x64, 0x9b, 0x93, 0x4c, 0xa4, 0x95, 0x99, 0x1b, 0x78, 0x52,
        0xb8, 0x55,
    ];
    assert_eq!(commit(&empty), expected);
}

#[test]
fn commit_does_not_echo_its_input() {
    let input = vec![0u8; 32];
    assert_ne!(commit(&input), [0u8; 32]);
}

#[test]
fn distinct_inputs_give_distinct_commitments() {
    let mut seen: Vec<[u8; 32]> = Vec::new();
    for i in 0..512u32 {
        let input = i.to_be_bytes().to_vec();
        let digest = commit(&input);
        assert!(!seen.contains(&digest), "collision at input {}", i);
        seen.push(digest);
    }
}
