use lazy_id::id::Id;
use lazy_id::mixing::{mix, unmix};
use lazy_id::nonzero::NonZeroWord;
use lazy_id::sequence::SequenceAllocator;
use std::collections::BTreeMap;
use std::collections::HashMap;

#[test]
fn mixing() {
    // a short run first, then the full one
    for count in [100u64, 10000u64] {
        for i in 0..count {
            let v = [i, !i, mix(i), unmix(i)];
            for (j, v) in v.iter().copied().enumerate() {
                assert_eq!(unmix(mix(v)), v, "i: {} step {}", i, j);
                assert_eq!(mix(unmix(v)), v, "i: {} step {}", i, j);
            }
        }
    }
}

#[test]
fn test_eq() {
    let alloc = SequenceAllocator::new();
    assert_ne!(
        Id::new(&alloc).unwrap().get(&alloc),
        Id::new(&alloc).unwrap().get(&alloc)
    );
    let v = Id::new(&alloc).unwrap();
    assert_eq!(v.try_clone(&alloc).unwrap().get(&alloc), v.get(&alloc));
    assert_eq!(v.get(&alloc), Ok(v.get(&alloc).unwrap()));
    assert_eq!(Ok(v.get(&alloc).unwrap()), v.get(&alloc));
}

#[test]
fn test_cmp() {
    let alloc = SequenceAllocator::new();
    let ids: Vec<Id> = (0..100).map(|_| Id::lazy()).collect();

    let map: BTreeMap<u64, usize> = ids
        .iter()
        .enumerate()
        .map(|(i, v)| (v.try_clone(&alloc).unwrap().get(&alloc).unwrap(), i))
        .collect();
    assert_eq!(map[&ids[10].get(&alloc).unwrap()], 10);
    let idv = ids[20].get(&alloc).unwrap();
    assert_eq!(map.get(&idv), Some(&20usize));
    assert_eq!(map.get(&Id::new(&alloc).unwrap().get(&alloc).unwrap()), None);
    let ord = Id::new(&alloc)
        .unwrap()
        .get(&alloc)
        .unwrap()
        .partial_cmp(&Id::new(&alloc).unwrap().get(&alloc).unwrap());
    assert!(ord.is_some() && ord != Some(core::cmp::Ordering::Equal));
}

#[test]
fn test_hash() {
    let alloc = SequenceAllocator::new();
    let ids: Vec<Id> = (0..100).map(|_| Id::lazy()).collect();

    let map: HashMap<u64, usize> = ids
        .iter()
        .enumerate()
        .map(|(i, v)| (v.try_clone(&alloc).unwrap().get(&alloc).unwrap(), i))
        .collect();
    assert_eq!(map[&ids[10].get(&alloc).unwrap()], 10);
    let idv = ids[20].get(&alloc).unwrap();
    assert_eq!(map.get(&idv), Some(&20usize));
    assert_eq!(map.get(&Id::new(&alloc).unwrap().get(&alloc).unwrap()), None);
}

#[test]
fn test_fmt() {
    let alloc = SequenceAllocator::new();
    let lazy = Id::lazy();
    let id2seq = 0x1337_fe4415;
    assert_eq!(
        lazy.to_string(&alloc).unwrap(),
        lazy.get(&alloc).unwrap().to_string()
    );
    // this mostly makes sure the seq is right.
    let expect = format!(
        "Id({:#x}; seq={})",
        lazy.get(&alloc).unwrap(),
        lazy.get(&alloc).unwrap().wrapping_mul(id2seq)
    );
    assert_eq!(lazy.to_debug_string(&alloc).unwrap(), expect);
}

#[test]
fn test_convert() {
    let alloc = SequenceAllocator::new();
    let id = Id::new(&alloc).unwrap();
    {
        let r = id.peek().unwrap().get();
        assert_eq!(id.get(&alloc).unwrap(), r);
    }
    let v = id.get(&alloc).unwrap();
    assert_eq!(v, id.get_nonzero(&alloc).unwrap().get());
    assert_eq!(
        v,
        id.try_clone(&alloc).unwrap().ensure_init(&alloc).unwrap().get()
    );
    let vnz = id.get_nonzero(&alloc).unwrap();
    assert_eq!(vnz.get(), v);
    let mut id = id;
    assert_eq!(vnz, id.ensure_init(&alloc).unwrap());
    // silly, tbh
    assert_ne!(
        Id::lazy().ensure_init(&alloc).unwrap().get(),
        Id::lazy().ensure_init(&alloc).unwrap().get()
    );
}

#[test]
fn test_etc() {
    let alloc = SequenceAllocator::new();
    let v = Id::from_raw_integer(NonZeroWord::new(400).unwrap());
    assert_eq!(v.get(&alloc), Ok(400));
    assert_ne!(
        Id::new(&alloc).unwrap().get(&alloc),
        Id::new(&alloc).unwrap().get(&alloc)
    );
    let i = Id::new(&alloc).unwrap();
    assert_eq!(i.get(&alloc), i.get(&alloc));
}
