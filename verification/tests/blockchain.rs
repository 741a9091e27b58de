use powchain::Block;
use powchain::Blockchain;
use powchain::Consensus;
use powchain::ProofOfWork;

const GENESIS_ZERO_HASH: [u8; 32] = [
    0x00, 0x00, 0xf6, 0xa4, 0x4e, 0x5a, 0x00, 0xf8, 0x67, 0x6d, 0x62, 0xcc, 0x0d, 0xdd, 0x66,
    0xee, 0x57, 0x03, 0x94, 0xc4, 0x53, 0x8e, 0x2b, 0x1c, 0xf0, 0xb7, 0xbd, 0x36, 0x2c, 0x06,
    0xab, 0x75,
];

#[test]
fn blockchain_pow() {
    let mut chain = Blockchain::<ProofOfWork>::new();
    chain.add(vec![0]);
    chain.add("testing".as_bytes().to_vec());
    chain.add(vec![1, 2, 3]);
    chain.add(vec![0]);
    chain.add(vec![0]);

    let blocks = chain.iter();
    let mut iter = blocks.iter();

    let mut block = iter.next().unwrap();
    assert_eq!(block.get_nonce(), 66693);
    assert_eq!(
        block.get_hash(),
        [
            0x00, 0x00, 0xf6, 0xa4, 0x4e, 0x5a, 0x00, 0xf8, 0x67, 0x6d, 0x62, 0xcc, 0x0d, 0xdd,
            0x66, 0xee, 0x57, 0x03, 0x94, 0xc4, 0x53, 0x8e, 0x2b, 0x1c, 0xf0, 0xb7, 0xbd, 0x36,
            0x2c, 0x06, 0xab, 0x75
        ]
    );

    block = iter.next().unwrap();
    assert_eq!(block.get_nonce(), 6392);
    assert_eq!(
        block.get_hash(),
        [
            0x00, 0x00, 0xde, 0x34, 0xf5, 0x9e, 0x84, 0xef, 0x95, 0x15, 0xa7, 0xe4, 0x08, 0xc1,
            0x3f, 0x30, 0x5c, 0xed, 0x4d, 0xfd, 0xa4, 0x44, 0x22, 0xd6, 0x66, 0x86, 0x2c, 0x2b,
            0x5d, 0xc2, 0x09, 0x82
        ]
    );

    block = iter.next().unwrap();
    assert_eq!(block.get_nonce(), 67878);
    assert_eq!(
        block.get_hash(),
        [
            0x00, 0x00, 0xdf, 0x0a, 0x46, 0x85, 0x53, 0xf0, 0xd9, 0x6e, 0xf3, 0xda, 0x40, 0x08,
            0x6b, 0xd9, 0x1b, 0xbc, 0xb8, 0xcd, 0x5b, 0x8a, 0xa3, 0xee, 0xb0, 0x4a, 0xb3, 0x19,
            0xfb, 0xae, 0x24, 0x29
        ]
    );

    block = iter.next().unwrap();
    assert_eq!(block.get_nonce(), 6064);
    assert_eq!(
        block.get_hash(),
        [
            0x00, 0x00, 0x69, 0xaf, 0x4e, 0xfa, 0xb7, 0xfb, 0x0a, 0x31, 0xf2, 0x2a, 0x5b, 0x46,
            0xd7, 0xfb, 0x37, 0x3a, 0xe8, 0x08, 0xfc, 0x04, 0x6b, 0x24, 0x98, 0xd0, 0xf2, 0x05,
            0x72, 0xa4, 0x8f, 0x99
        ]
    );

    block = iter.next().unwrap();
    assert_eq!(block.get_nonce(), 80666);
    assert_eq!(
        block.get_hash(),
        [
            0x00, 0x00, 0x3d, 0x3c, 0x35, 0x07, 0xb3, 0x9f, 0xcd, 0x8b, 0xdb, 0xf5, 0x09, 0xd0,
            0x40, 0x1c, 0x61, 0x8c, 0xe9, 0x8f, 0xf3, 0x1f, 0x60, 0xd6, 0xe0, 0x34, 0x35, 0xb2,
            0xb7, 0x91, 0x6b, 0xee
        ]
    );
}

#[test]
fn genesis_previous_hash_is_zero() {
    let mut chain = Blockchain::<ProofOfWork>::new();
    let block = chain.add(vec![0]).unwrap();
    assert_eq!(block.get_previous_hash(), [0u8; 32]);
}

#[test]
fn linking_previous_hash_matches_predecessor() {
    let mut chain = Blockchain::<ProofOfWork>::new();
    chain.add(vec![0]);
    chain.add("testing".as_bytes().to_vec());
    let blocks = chain.iter();
    assert_eq!(blocks.len(), 2);
    assert_eq!(blocks[1].get_previous_hash(), blocks[0].get_hash());
}

#[test]
fn added_blocks_validate() {
    let mut chain = Blockchain::<ProofOfWork>::new();
    chain.add(vec![0]);
    chain.add("testing".as_bytes().to_vec());
    for block in chain.iter() {
        assert!(ProofOfWork::is_valid(block));
    }
}

#[test]
fn mining_is_deterministic() {
    let mut first = Blockchain::<ProofOfWork>::new();
    let mut second = Blockchain::<ProofOfWork>::new();
    let a = first.add(vec![0]).unwrap();
    let b = second.add(vec![0]).unwrap();
    assert_eq!(a.get_nonce(), b.get_nonce());
    assert_eq!(a.get_hash(), b.get_hash());
}

#[test]
fn tamper_payload_detected() {
    let block = Block::raw([0u8; 32], vec![1], 66693, GENESIS_ZERO_HASH);
    assert!(!ProofOfWork::is_valid(&block));
}

#[test]
fn tamper_nonce_detected() {
    let block = Block::raw([0u8; 32], vec![0], 66694, GENESIS_ZERO_HASH);
    assert!(!ProofOfWork::is_valid(&block));
}

#[test]
fn tamper_hash_detected() {
    let mut hash = GENESIS_ZERO_HASH;
    hash[31] ^= 0x01;
    let block = Block::raw([0u8; 32], vec![0], 66693, hash);
    assert!(!ProofOfWork::is_valid(&block));
}

#[test]
fn raw_reconstruction_validates() {
    let block = Block::raw([0u8; 32], vec![0], 66693, GENESIS_ZERO_HASH);
    assert!(ProofOfWork::is_valid(&block));
}

#[test]
fn sealed_hash_meets_target() {
    let mut chain = Blockchain::<ProofOfWork>::new();
    chain.add(vec![0]);
    chain.add("testing".as_bytes().to_vec());
    for block in chain.iter() {
        let hash = block.get_hash();
        let prefix: u32 = u32::from_be_bytes([hash[0], hash[1], hash[2], hash[3]]);
        assert_eq!(prefix >> 16, 0);
    }
}

#[test]
fn to_bytes_layout_is_nonce_previous_hash_payload() {
    let block = Block::raw([5u8; 32], vec![6, 7], 0x01020304, [0u8; 32]);
    let mut expected: Vec<u8> = vec![1, 2, 3, 4];
    expected.extend_from_slice(&[5u8; 32]);
    expected.extend_from_slice(&[6, 7]);
    assert_eq!(ProofOfWork::to_bytes(&block), expected);
}

#[test]
fn getters_return_the_raw_fields() {
    let block = Block::raw([9u8; 32], vec![1, 2], 42, [7u8; 32]);
    assert_eq!(block.get_previous_hash(), [9u8; 32]);
    assert_eq!(block.get_payload(), vec![1, 2]);
    assert_eq!(block.get_nonce(), 42);
    assert_eq!(block.get_hash(), [7u8; 32]);
}

#[test]
fn add_returns_the_appended_block() {
    let mut chain = Blockchain::<ProofOfWork>::new();
    let block = chain.add(vec![0]).unwrap();
    assert_eq!(block.get_nonce(), 66693);
    assert_eq!(block.get_hash(), GENESIS_ZERO_HASH);
    assert_eq!(block.get_payload(), vec![0]);
}

#[test]
fn new_chain_is_empty() {
    let chain = Blockchain::<ProofOfWork>::new();
    assert_eq!(chain.iter().len(), 0);
}

#[test]
fn mine_finds_the_known_genesis_pair() {
    let sealed = powchain::pow::mine(&[0u8; 32], &vec![0]).unwrap();
    assert_eq!(sealed.0, 66693);
    assert_eq!(sealed.1, GENESIS_ZERO_HASH);
}

#[test]
fn empty_payload_block_validates() {
    let mut chain = Blockchain::<ProofOfWork>::new();
    let block = chain.add(vec![]).unwrap();
    assert!(ProofOfWork::is_valid(block));
}
