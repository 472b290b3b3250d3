use gullery::handles::{AttachmentHandleContainer, Handle, HandleArray};

fn zeroed_round_trip<const N: usize>() {
    let zeroed = HandleArray::<N>::new_zeroed();
    assert_eq!(zeroed.as_slice().len(), N);
    assert!(zeroed.as_slice().iter().all(|h| h.is_none()));
    let back = HandleArray::<N>::from_slice(zeroed.as_slice()).unwrap();
    assert_eq!(back.as_slice(), zeroed.as_slice());
}

#[test]
fn every_supported_length_starts_empty() {
    zeroed_round_trip::<0>();
    zeroed_round_trip::<1>();
    zeroed_round_trip::<2>();
    zeroed_round_trip::<3>();
    zeroed_round_trip::<4>();
    zeroed_round_trip::<5>();
    zeroed_round_trip::<6>();
    zeroed_round_trip::<7>();
    zeroed_round_trip::<8>();
    zeroed_round_trip::<9>();
    zeroed_round_trip::<10>();
    zeroed_round_trip::<11>();
    zeroed_round_trip::<12>();
    zeroed_round_trip::<13>();
    zeroed_round_trip::<14>();
    zeroed_round_trip::<15>();
    zeroed_round_trip::<16>();
    zeroed_round_trip::<17>();
    zeroed_round_trip::<18>();
    zeroed_round_trip::<19>();
    zeroed_round_trip::<20>();
    zeroed_round_trip::<21>();
    zeroed_round_trip::<22>();
    zeroed_round_trip::<23>();
    zeroed_round_trip::<24>();
    zeroed_round_trip::<25>();
    zeroed_round_trip::<26>();
    zeroed_round_trip::<27>();
    zeroed_round_trip::<28>();
    zeroed_round_trip::<29>();
    zeroed_round_trip::<30>();
    zeroed_round_trip::<31>();
    zeroed_round_trip::<32>();
}

#[test]
fn filled_slots_survive_round_trip() {
    let mut slots = HandleArray::<4>::new_zeroed();
    slots.set(1, Some(Handle(7)));
    slots.set(3, Some(Handle(9)));
    assert_eq!(slots.as_slice(), &[None, Some(Handle(7)), None, Some(Handle(9))]);
    let back = HandleArray::<4>::from_slice(slots.as_slice()).unwrap();
    assert_eq!(back.as_slice(), slots.as_slice());
}

#[test]
fn from_slice_checks_length() {
    assert!(HandleArray::<3>::from_slice(&[None, None]).is_none());
    assert!(HandleArray::<0>::from_slice(&[Some(Handle(1))]).is_none());
    assert!(HandleArray::<0>::from_slice(&[]).is_some());
}
