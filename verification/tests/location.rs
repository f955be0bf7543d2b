use computed_origin::{BodyId, BodyPart, Junction, Junctions, Location, NetworkId, MAX_JUNCTIONS};
use staging_xcm::v3::{
    BodyId as XcmBodyId, BodyPart as XcmBodyPart, Junction as XcmJunction,
    Junctions as XcmJunctions, MultiLocation, NetworkId as XcmNetworkId,
};

fn xcm_network(network: NetworkId) -> XcmNetworkId {
    match network {
        NetworkId::ByGenesis(hash) => XcmNetworkId::ByGenesis(hash),
        NetworkId::ByFork { block_number, block_hash } => {
            XcmNetworkId::ByFork { block_number, block_hash }
        }
        NetworkId::Polkadot => XcmNetworkId::Polkadot,
        NetworkId::Kusama => XcmNetworkId::Kusama,
        NetworkId::Westend => XcmNetworkId::Westend,
        NetworkId::Rococo => XcmNetworkId::Rococo,
        NetworkId::Wococo => XcmNetworkId::Wococo,
        NetworkId::Ethereum { chain_id } => XcmNetworkId::Ethereum { chain_id },
        NetworkId::BitcoinCore => XcmNetworkId::BitcoinCore,
        NetworkId::BitcoinCash => XcmNetworkId::BitcoinCash,
        NetworkId::PolkadotBulletin => XcmNetworkId::PolkadotBulletin,
    }
}

fn xcm_body(id: BodyId) -> XcmBodyId {
    match id {
        BodyId::Unit => XcmBodyId::Unit,
        BodyId::Moniker(name) => XcmBodyId::Moniker(name),
        BodyId::Index(index) => XcmBodyId::Index(index),
        BodyId::Executive => XcmBodyId::Executive,
        BodyId::Technical => XcmBodyId::Technical,
        BodyId::Legislative => XcmBodyId::Legislative,
        BodyId::Judicial => XcmBodyId::Judicial,
        BodyId::Defense => XcmBodyId::Defense,
        BodyId::Administration => XcmBodyId::Administration,
        BodyId::Treasury => XcmBodyId::Treasury,
    }
}

fn xcm_part(part: BodyPart) -> XcmBodyPart {
    match part {
        BodyPart::Voice => XcmBodyPart::Voice,
        BodyPart::Members { count } => XcmBodyPart::Members { count },
        BodyPart::Fraction { nom, denom } => XcmBodyPart::Fraction { nom, denom },
        BodyPart::AtLeastProportion { nom, denom } => XcmBodyPart::AtLeastProportion { nom, denom },
        BodyPart::MoreThanProportion { nom, denom } => {
            XcmBodyPart::MoreThanProportion { nom, denom }
        }
    }
}

fn xcm_junction(junction: Junction) -> XcmJunction {
    match junction {
        Junction::Parachain(index) => XcmJunction::Parachain(index),
        Junction::AccountId32 { network, id } => {
            XcmJunction::AccountId32 { network: network.map(xcm_network), id }
        }
        Junction::AccountIndex64 { network, index } => {
            XcmJunction::AccountIndex64 { network: network.map(xcm_network), index }
        }
        Junction::AccountKey20 { network, key } => {
            XcmJunction::AccountKey20 { network: network.map(xcm_network), key }
        }
        Junction::PalletInstance(index) => XcmJunction::PalletInstance(index),
        Junction::GeneralIndex(index) => XcmJunction::GeneralIndex(index),
        Junction::GeneralKey { length, data } => XcmJunction::GeneralKey { length, data },
        Junction::OnlyChild => XcmJunction::OnlyChild,
        Junction::Plurality { id, part } => {
            XcmJunction::Plurality { id: xcm_body(id), part: xcm_part(part) }
        }
        Junction::GlobalConsensus(network) => XcmJunction::GlobalConsensus(xcm_network(network)),
    }
}

fn xcm_junctions(path: &Junctions) -> XcmJunctions {
    let mut out = XcmJunctions::Here;
    for junction in path.to_vec() {
        out.push(xcm_junction(junction)).unwrap();
    }
    out
}

fn xcm_location(location: &Location) -> MultiLocation {
    MultiLocation { parents: location.parents, interior: xcm_junctions(&location.interior) }
}

fn path(junctions: Vec<Junction>) -> Junctions {
    Junctions::from_vec(junctions).unwrap()
}

/// A small generator of numbers, the same on every run.
struct Sequence(u64);

impl Sequence {
    fn next(&mut self, below: u64) -> u64 {
        self.0 = self.0.wrapping_mul(6364136223846793005).wrapping_add(1442695040888963407);
        (self.0 >> 33) % below
    }

    fn junction(&mut self) -> Junction {
        match self.next(6) {
            0 => Junction::Parachain(1),
            1 => Junction::Parachain(2),
            2 => Junction::GlobalConsensus(NetworkId::Kusama),
            3 => Junction::GlobalConsensus(NetworkId::Polkadot),
            4 => Junction::OnlyChild,
            _ => Junction::PalletInstance(3),
        }
    }

    fn path(&mut self) -> Junctions {
        let length = self.next(9);
        path((0..length).map(|_| self.junction()).collect())
    }

    fn location(&mut self) -> Location {
        let parents = match self.next(8) {
            7 => 255,
            6 => 250,
            n => n as u8,
        };
        Location::new(parents, self.path())
    }
}

#[test]
fn capacity_is_eight() {
    assert_eq!(MAX_JUNCTIONS, 8);
    assert!(Junctions::from_vec(vec![Junction::OnlyChild; 8]).is_some());
    assert!(Junctions::from_vec(vec![Junction::OnlyChild; 9]).is_none());
}

#[test]
fn paths_keep_their_junctions() {
    let junctions = vec![Junction::Parachain(1), Junction::OnlyChild, Junction::PalletInstance(2)];
    let subject = path(junctions.clone());
    assert_eq!(subject.len(), 3);
    assert_eq!(subject.to_vec(), junctions);
    assert_eq!(subject.first(), Some(Junction::Parachain(1)));
    assert_eq!(subject.at(2), Some(Junction::PalletInstance(2)));
    assert_eq!(subject.at(3), None);
    assert_eq!(Junctions::here().len(), 0);
    assert_eq!(Junctions::here().first(), None);
    assert_eq!(Junctions::x1(Junction::OnlyChild).to_vec(), vec![Junction::OnlyChild]);
    assert_eq!(subject.clone(), subject);
}

#[test]
fn split_first_agrees_with_xcm() {
    let mut numbers = Sequence(1);
    for _ in 0..500 {
        let subject = numbers.path();
        let (rest, first) = subject.split_first();
        let (xcm_rest, xcm_first) = xcm_junctions(&subject).split_first();
        assert_eq!(xcm_junctions(&rest), xcm_rest);
        assert_eq!(first.map(xcm_junction), xcm_first);
    }
    let (rest, first) = Junctions::here().split_first();
    assert_eq!(rest.len(), 0);
    assert_eq!(first, None);
}

#[test]
fn junctions_are_equal_as_in_xcm() {
    let mut numbers = Sequence(2);
    let samples = vec![
        Junction::Parachain(1),
        Junction::Parachain(2),
        Junction::AccountId32 { network: None, id: [1; 32] },
        Junction::AccountId32 { network: None, id: [2; 32] },
        Junction::AccountId32 { network: Some(NetworkId::Kusama), id: [1; 32] },
        Junction::AccountIndex64 { network: None, index: 1 },
        Junction::AccountIndex64 { network: Some(NetworkId::Ethereum { chain_id: 1 }), index: 1 },
        Junction::AccountIndex64 { network: Some(NetworkId::Ethereum { chain_id: 2 }), index: 1 },
        Junction::AccountKey20 { network: None, key: [1; 20] },
        Junction::AccountKey20 { network: None, key: [3; 20] },
        Junction::PalletInstance(1),
        Junction::GeneralIndex(1),
        Junction::GeneralIndex(u128::MAX),
        Junction::GeneralKey { length: 1, data: [1; 32] },
        Junction::GeneralKey { length: 2, data: [1; 32] },
        Junction::OnlyChild,
        Junction::Plurality { id: BodyId::Index(0), part: BodyPart::Voice },
        Junction::Plurality { id: BodyId::Index(1), part: BodyPart::Voice },
        Junction::Plurality { id: BodyId::Moniker([1; 4]), part: BodyPart::Members { count: 1 } },
        Junction::Plurality { id: BodyId::Unit, part: BodyPart::Fraction { nom: 1, denom: 2 } },
        Junction::Plurality {
            id: BodyId::Unit,
            part: BodyPart::AtLeastProportion { nom: 1, denom: 2 },
        },
        Junction::Plurality {
            id: BodyId::Unit,
            part: BodyPart::MoreThanProportion { nom: 1, denom: 2 },
        },
        Junction::Plurality { id: BodyId::Treasury, part: BodyPart::Voice },
        Junction::GlobalConsensus(NetworkId::Kusama),
        Junction::GlobalConsensus(NetworkId::Polkadot),
        Junction::GlobalConsensus(NetworkId::ByGenesis([1; 32])),
        Junction::GlobalConsensus(NetworkId::ByGenesis([2; 32])),
        Junction::GlobalConsensus(NetworkId::ByFork { block_number: 1, block_hash: [1; 32] }),
        Junction::GlobalConsensus(NetworkId::ByFork { block_number: 2, block_hash: [1; 32] }),
    ];
    for a in &samples {
        for b in &samples {
            assert_eq!(a == b, xcm_junction(*a) == xcm_junction(*b));
        }
    }
    for _ in 0..500 {
        let (a, b) = (numbers.location(), numbers.location());
        assert_eq!(a == b, xcm_location(&a) == xcm_location(&b));
        assert!(a == a.clone());
    }
}

#[test]
fn global_consensus_agrees_with_xcm() {
    let mut numbers = Sequence(3);
    for _ in 0..500 {
        let subject = numbers.path();
        assert_eq!(
            subject.global_consensus().map(xcm_network),
            xcm_junctions(&subject).global_consensus()
        );
    }
    assert_eq!(Junctions::here().global_consensus(), Err(()));
    assert_eq!(
        path(vec![Junction::GlobalConsensus(NetworkId::Kusama), Junction::Parachain(1)])
            .global_consensus(),
        Ok(NetworkId::Kusama)
    );
    assert_eq!(
        path(vec![Junction::Parachain(1), Junction::GlobalConsensus(NetworkId::Kusama)])
            .global_consensus(),
        Err(())
    );
}

#[test]
fn relative_to_agrees_with_xcm() {
    let mut numbers = Sequence(4);
    for _ in 0..3000 {
        let (target, viewer) = (numbers.path(), numbers.path());
        let found = target.relative_to(&viewer);
        assert_eq!(xcm_location(&found), xcm_junctions(&target).relative_to(&xcm_junctions(&viewer)));
    }
}

#[test]
fn relative_to_ascends_past_what_is_not_shared() {
    let kusama = Junction::GlobalConsensus(NetworkId::Kusama);
    let target = path(vec![kusama, Junction::Parachain(1000)]);
    assert_eq!(
        target.relative_to(&path(vec![kusama])),
        Location::new(0, path(vec![Junction::Parachain(1000)]))
    );
    assert_eq!(
        target.relative_to(&path(vec![kusama, Junction::Parachain(2000), Junction::OnlyChild])),
        Location::new(2, path(vec![Junction::Parachain(1000)]))
    );
    assert_eq!(target.relative_to(&target), Location::new(0, Junctions::here()));
    assert_eq!(Junctions::here().relative_to(&target), Location::new(2, Junctions::here()));
    assert_eq!(target.relative_to(&Junctions::here()), Location::new(0, target.clone()));
}

#[test]
fn prepended_with_agrees_with_xcm() {
    let mut numbers = Sequence(5);
    let mut failures = 0;
    for _ in 0..5000 {
        let (suffix, prefix) = (numbers.location(), numbers.location());
        let found = suffix.prepended_with(&prefix);
        let expected = xcm_location(&suffix).prepended_with(xcm_location(&prefix));
        match (found, expected) {
            (Ok(found), Ok(expected)) => assert_eq!(xcm_location(&found), expected),
            (Err(()), Err(_)) => failures += 1,
            (found, expected) => panic!("{:?} against {:?}", found, expected),
        }
    }
    assert!(failures > 0);
}

#[test]
fn prepended_with_cancels_parents_against_the_prefix() {
    let suffix = Location::new(2, path(vec![Junction::PalletInstance(3)]));
    let prefix = Location::new(1, path(vec![Junction::Parachain(21), Junction::OnlyChild]));
    assert_eq!(
        suffix.prepended_with(&prefix),
        Ok(Location::new(1, path(vec![Junction::PalletInstance(3)])))
    );
    let suffix = Location::new(1, path(vec![Junction::PalletInstance(3)]));
    assert_eq!(
        suffix.prepended_with(&prefix),
        Ok(Location::new(1, path(vec![Junction::Parachain(21), Junction::PalletInstance(3)])))
    );
    let suffix = Location::new(3, Junctions::here());
    assert_eq!(suffix.prepended_with(&prefix), Ok(Location::new(2, Junctions::here())));
}

#[test]
fn prepended_with_fails_where_the_result_does_not_fit() {
    let long = Location::new(0, path(vec![Junction::OnlyChild; 5]));
    assert_eq!(long.prepended_with(&long), Err(()));
    let high = Location::new(200, Junctions::here());
    assert_eq!(high.prepended_with(&high), Err(()));
    let highest = Location::new(255, Junctions::here());
    assert_eq!(
        highest.prepended_with(&Location::new(0, Junctions::here())),
        Ok(Location::new(255, Junctions::here()))
    );
    assert_eq!(highest.prepended_with(&Location::new(1, Junctions::here())), Err(()));
    assert_eq!(
        highest.prepended_with(&Location::new(1, path(vec![Junction::OnlyChild]))),
        Ok(Location::new(255, Junctions::here()))
    );
}

#[test]
fn within_global_agrees_with_xcm() {
    let mut numbers = Sequence(6);
    let mut failures = 0;
    for _ in 0..5000 {
        let (base, relative) = (numbers.path(), numbers.location());
        let found = base.within_global(&relative);
        let expected = xcm_junctions(&base).within_global(xcm_location(&relative));
        match (found, expected) {
            (Ok(found), Ok(expected)) => assert_eq!(xcm_junctions(&found), expected),
            (Err(()), Err(())) => failures += 1,
            (found, expected) => panic!("{:?} against {:?}", found, expected),
        }
    }
    assert!(failures > 0);
}

#[test]
fn within_global_keeps_the_root() {
    let kusama = Junction::GlobalConsensus(NetworkId::Kusama);
    let base = path(vec![kusama, Junction::Parachain(1000)]);
    assert_eq!(
        base.within_global(&Location::new(1, path(vec![Junction::Parachain(2125)]))),
        Ok(path(vec![kusama, Junction::Parachain(2125)]))
    );
    assert_eq!(base.within_global(&Location::new(2, Junctions::here())), Err(()));
    assert_eq!(base.within_global(&Location::new(0, path(vec![Junction::OnlyChild; 7]))), Err(()));
    assert_eq!(Junctions::here().within_global(&Location::new(0, Junctions::here())), Err(()));
}

#[test]
fn append_with_agrees_with_xcm() {
    let mut numbers = Sequence(7);
    let mut failures = 0;
    for _ in 0..5000 {
        let (mut subject, suffix) = (numbers.location(), numbers.path());
        let before = subject.clone();
        let mut expected = xcm_location(&subject);
        let found = subject.append_with(&suffix);
        match (found, expected.append_with(xcm_junctions(&suffix))) {
            (Ok(()), Ok(())) => {}
            (Err(()), Err(_)) => {
                failures += 1;
                assert_eq!(subject, before);
            }
            (found, outside) => panic!("{:?} against {:?}", found, outside),
        }
        assert_eq!(xcm_location(&subject), expected);
    }
    assert!(failures > 0);
}

#[test]
fn append_with_fills_up_to_capacity() {
    let mut subject = Location::new(1, path(vec![Junction::Parachain(1); 5]));
    assert_eq!(subject.append_with(&path(vec![Junction::OnlyChild; 3])), Ok(()));
    assert_eq!(subject.parents, 1);
    assert_eq!(subject.interior.len(), 8);
    assert_eq!(subject.interior.at(4), Some(Junction::Parachain(1)));
    assert_eq!(subject.interior.at(5), Some(Junction::OnlyChild));
    let full = subject.clone();
    assert_eq!(subject.append_with(&Junctions::here()), Ok(()));
    assert_eq!(subject, full);
    assert_eq!(subject.append_with(&Junctions::x1(Junction::OnlyChild)), Err(()));
    assert_eq!(subject, full);
}
