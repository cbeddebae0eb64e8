use hyperloglog::helpers;
use hyperloglog::HllError;
use hyperloglog::HyperLogLog;

#[test]
fn test_registers_from_bits() {
    assert_eq!(helpers::registers_from_bits(&3).unwrap(), 8);
}

#[test]
fn test_n_be_bits() {
    let number: u32 = 0b1010_0100_0000_0000_0000_0000_0000_0000;
    let ret = helpers::n_be_bits(&number, &6);
    assert_eq!(ret, 0b101001);
}

#[test]
fn test_n_le_bits() {
    let number: u32 = 0b1010_0100;
    let ret = helpers::n_le_bits(&number, &3);
    assert_eq!(ret, 0b100);
}

#[test]
fn test_hll_add() {
    let mut hll = HyperLogLog::new(4).unwrap();
    // Hash should equal 2766284370 = 10100100111000100010011001010010
    hll.add(&"moros".to_string());
    assert_eq!(hll.register, vec![0, 0, 0, 0, 0, 0, 0, 0, 0, 0, 2, 0, 0, 0, 0, 0])
}

#[test]
fn test_hll_macro() {
    let hll: HyperLogLog = HyperLogLog::new(6).unwrap();
    assert_eq!(hll.index_bits, 6);
}

#[test]
fn test_hash_value_32() {
    assert_eq!(helpers::hash_value_32(&"moros".to_string()), 2766284370);
}

#[test]
fn test_new_rejects_invalid_precision() {
    match HyperLogLog::new(0) {
        Err(HllError::InvalidPrecision(v)) => assert_eq!(v, 0),
        other => panic!("expected InvalidPrecision(0), got {:?}", other),
    }
    match HyperLogLog::new(20) {
        Err(HllError::InvalidPrecision(v)) => assert_eq!(v, 20),
        other => panic!("expected InvalidPrecision(20), got {:?}", other),
    }
    match HyperLogLog::new(3) {
        Err(HllError::InvalidPrecision(v)) => assert_eq!(v, 3),
        other => panic!("expected InvalidPrecision(3), got {:?}", other),
    }
    match HyperLogLog::new(17) {
        Err(HllError::InvalidPrecision(v)) => assert_eq!(v, 17),
        other => panic!("expected InvalidPrecision(17), got {:?}", other),
    }
}

#[test]
fn test_new_register_count_every_precision() {
    for index_bits in 4..=16u8 {
        let hll = HyperLogLog::new(index_bits).unwrap();
        let expected: usize = 1usize << index_bits;
        assert_eq!(hll.register_count(), expected);
        assert_eq!(hll.register.len(), expected);
        assert!(hll.register.iter().all(|&r| r == 0));
    }
}

#[test]
fn test_registers_from_bits_overflow() {
    assert_eq!(helpers::registers_from_bits(&200), Err(HllError::Overflow));
    assert_eq!(helpers::registers_from_bits(&4), Ok(16));
    assert_eq!(helpers::registers_from_bits(&16), Ok(65536));
}

#[test]
fn test_n_be_bits_boundaries() {
    let number: u32 = 0xdead_beef;
    assert_eq!(helpers::n_be_bits(&number, &0), 0);
    assert_eq!(helpers::n_be_bits(&number, &32), number);
    assert_eq!(helpers::n_be_bits(&number, &4), 0xd);
}

#[test]
fn test_n_le_bits_boundaries() {
    let number: u32 = 0xdead_beef;
    assert_eq!(helpers::n_le_bits(&number, &0), 0);
    assert_eq!(helpers::n_le_bits(&number, &32), number);
    assert_eq!(helpers::n_le_bits(&number, &4), 0xf);
}

#[test]
fn test_add_is_idempotent() {
    let mut once = HyperLogLog::new(4).unwrap();
    once.add(&"moros".to_string());
    let mut twice = HyperLogLog::new(4).unwrap();
    twice.add(&"moros".to_string());
    twice.add(&"moros".to_string());
    assert_eq!(once.register, twice.register);
}

#[test]
fn test_add_never_lowers_a_register() {
    let mut hll = HyperLogLog::new(4).unwrap();
    let mut previous = hll.register.clone();
    for value in 0..200u64 {
        hll.add(&value);
        assert_eq!(hll.register.len(), previous.len());
        for (now, before) in hll.register.iter().zip(previous.iter()) {
            assert!(now >= before);
        }
        previous = hll.register.clone();
    }
}

#[test]
fn test_add_all_zero_remainder() {
    // The hash whose bottom 28 bits are all zero must produce the maximum
    // rank, 32 - 4 + 1 = 29, in the register its top 4 bits pick.
    let mut hll = HyperLogLog::new(4).unwrap();
    hll.add_hash(0xa000_0000);
    assert_eq!(hll.register[0xa], 29);
    assert!(hll.register.iter().enumerate().all(|(i, &r)| i == 0xa || r == 0));
}

#[test]
fn test_default_estimator() {
    let hll = HyperLogLog::default();
    assert_eq!(hll.index_bits, 4);
    assert_eq!(hll.register, vec![0u8; 16]);
}
