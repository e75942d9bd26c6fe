use bounded_store::por::{Config, Error, Event, Pallet};
use bounded_store::{AccountId, Call};

fn fresh(cap: u32) -> Pallet {
    Pallet::new(Config { max_item_len: cap })
}

#[test]
fn por_store_emits_one_event() {
    let mut p = fresh(1024);
    let who = AccountId(7);
    assert_eq!(p.store(who, vec![0xab; 37]), Ok(()));
    assert_eq!(p.events(), &vec![Event::Stored { who, len: 37 }]);
    assert_eq!(p.get(), Some(&vec![0xab; 37]));
}

#[test]
fn por_boundary() {
    let mut p = fresh(4);
    let who = AccountId(1);
    assert_eq!(p.store(who, vec![1, 2, 3, 4]), Ok(()));
    assert_eq!(p.store(who, vec![1, 2, 3, 4, 5]), Err(Error::TooLong));
    assert_eq!(p.get(), Some(&vec![1, 2, 3, 4]));
    assert_eq!(p.events().len(), 1);
}

#[test]
fn por_failed_store_on_empty_cell() {
    let mut p = fresh(2);
    assert_eq!(p.store(AccountId(3), vec![1, 2, 3]), Err(Error::TooLong));
    assert!(p.get().is_none());
    assert!(p.events().is_empty());
}

#[test]
fn por_clear_empty_fails() {
    let mut p = fresh(4);
    assert_eq!(p.clear(AccountId(1)), Err(Error::NothingToClear));
    assert!(p.events().is_empty());
}

#[test]
fn por_clear_after_store() {
    let mut p = fresh(4);
    let a = AccountId(1);
    let b = AccountId(2);
    p.store(a, vec![5]).unwrap();
    assert_eq!(p.clear(b), Ok(()));
    assert!(p.get().is_none());
    assert_eq!(p.clear(b), Err(Error::NothingToClear));
    assert_eq!(
        p.events(),
        &vec![Event::Stored { who: a, len: 1 }, Event::Cleared { who: b }]
    );
}

#[test]
fn por_round_trip_every_length() {
    let cap: u32 = 6;
    for n in 0..=cap as usize {
        let mut p = fresh(cap);
        let data: Vec<u8> = (0..n).map(|i| (i * 31 + 5) as u8).collect();
        assert_eq!(p.store(AccountId(9), data.clone()), Ok(()));
        assert_eq!(p.get(), Some(&data));
    }
}

#[test]
fn por_empty_payload_is_stored() {
    let mut p = fresh(4);
    assert_eq!(p.store(AccountId(1), Vec::new()), Ok(()));
    assert_eq!(p.get(), Some(&Vec::new()));
    assert_eq!(p.clear(AccountId(1)), Ok(()));
}

fn por_script() -> Vec<(AccountId, Call)> {
    vec![
        (AccountId(1), Call::Clear),
        (AccountId(1), Call::Store(vec![1, 2])),
        (AccountId(2), Call::Store(vec![1, 2, 3, 4, 5])),
        (AccountId(2), Call::Clear),
        (AccountId(3), Call::Store(vec![8, 8, 8])),
    ]
}

#[test]
fn por_replay_is_deterministic() {
    let calls = por_script();
    let mut a = fresh(4);
    let mut b = fresh(4);
    let ra = a.replay(&calls);
    let rb = b.replay(&calls);
    assert_eq!(ra, rb);
    assert_eq!(
        ra,
        vec![Err(Error::NothingToClear), Ok(()), Err(Error::TooLong), Ok(()), Ok(())]
    );
    assert_eq!(a.get(), b.get());
    assert_eq!(a.get(), Some(&vec![8, 8, 8]));
    assert_eq!(a.events(), b.events());
    assert_eq!(
        a.events(),
        &vec![
            Event::Stored { who: AccountId(1), len: 2 },
            Event::Cleared { who: AccountId(2) },
            Event::Stored { who: AccountId(3), len: 3 },
        ]
    );
}

#[test]
fn por_dispatch_routes_calls() {
    let mut p = fresh(4);
    assert_eq!(p.dispatch(AccountId(1), Call::Store(vec![4])), Ok(()));
    assert_eq!(p.dispatch(AccountId(1), Call::Clear), Ok(()));
    assert_eq!(p.dispatch(AccountId(1), Call::Clear), Err(Error::NothingToClear));
}
