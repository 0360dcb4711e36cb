use gossip_round::api_cell::{AgentPubKey, CellConductorApi, CellId, ConductorApiError, DnaHash};

fn cell(dna: &[u8], agent: &[u8]) -> CellId {
    CellId::new(DnaHash(dna.to_vec()), AgentPubKey(agent.to_vec()))
}

#[test]
fn an_api_keeps_what_it_was_made_of() {
    let api = CellConductorApi::new("conductor", cell(&[1, 2, 3], &[4, 5]));
    assert_eq!(*api.conductor_handle(), "conductor");
    assert_eq!(api.cell_id().dna_hash().0, vec![1, 2, 3]);
    assert_eq!(api.cell_id().agent_pubkey().0, vec![4, 5]);
    let copy = api.clone();
    assert_eq!(copy.cell_id(), api.cell_id());
    assert_eq!(*copy.conductor_handle(), "conductor");
}

#[test]
fn cells_are_the_same_when_dna_and_agent_are() {
    let id = cell(&[1, 2, 3], &[4, 5]);
    assert_eq!(id, cell(&[1, 2, 3], &[4, 5]));
    assert_eq!(id, id.clone());
    assert_ne!(id, cell(&[1, 2, 3], &[4, 6]));
    assert_ne!(id, cell(&[1, 2, 4], &[4, 5]));
    assert_ne!(id, cell(&[1, 2], &[4, 5]));
    assert_ne!(id, cell(&[1, 2, 3], &[4, 5, 0]));
    assert_ne!(id, cell(&[4, 5], &[1, 2, 3]));
    assert_eq!(cell(&[], &[]), cell(&[], &[]));
}

#[test]
fn hashes_and_keys_compare_by_their_bytes() {
    assert_eq!(DnaHash(vec![1, 2]), DnaHash(vec![1, 2]));
    assert_ne!(DnaHash(vec![1, 2]), DnaHash(vec![1, 3]));
    assert_ne!(DnaHash(vec![1, 2]), DnaHash(vec![1]));
    assert_eq!(DnaHash(vec![9, 9]).clone(), DnaHash(vec![9, 9]));
    assert_eq!(AgentPubKey(vec![]), AgentPubKey(vec![]));
    assert_ne!(AgentPubKey(vec![0]), AgentPubKey(vec![]));
    assert_eq!(AgentPubKey(vec![7]).clone(), AgentPubKey(vec![7]));
}

#[test]
fn a_zome_call_for_the_named_cell_goes_through() {
    let api = CellConductorApi::new((), cell(&[1], &[2]));
    assert_eq!(api.call_zome(&cell(&[7], &[8]), cell(&[7], &[8])), Ok(()));
}

#[test]
fn a_zome_call_for_another_cell_is_a_mismatch() {
    let api = CellConductorApi::new((), cell(&[1], &[2]));
    assert_eq!(
        api.call_zome(&cell(&[7], &[8]), cell(&[7], &[9])),
        Err(ConductorApiError::ZomeCallCellMismatch {
            api_cell_id: cell(&[7], &[8]),
            call_cell_id: cell(&[7], &[9]),
        })
    );
}

#[test]
fn an_api_knows_calls_for_its_own_cell() {
    let api = CellConductorApi::new((), cell(&[1], &[2]));
    assert!(api.calls_own_cell(&cell(&[1], &[2])));
    assert!(!api.calls_own_cell(&cell(&[1], &[3])));
    assert!(!api.calls_own_cell(&cell(&[2], &[2])));
}

#[test]
fn a_dna_that_was_found_is_handed_on() {
    let api = CellConductorApi::new((), cell(&[1], &[2]));
    assert_eq!(api.get_this_dna(Some("dna file")), Ok("dna file"));
    assert_eq!(api.dna_or_missing(&DnaHash(vec![5]), Some(17u32)), Ok(17));
}

#[test]
fn a_dna_that_was_not_found_is_missing_by_its_hash() {
    let api = CellConductorApi::new((), cell(&[1, 1], &[2]));
    assert_eq!(
        api.get_this_dna(None::<u32>),
        Err(ConductorApiError::DnaMissing(DnaHash(vec![1, 1])))
    );
    assert_eq!(
        api.dna_or_missing(&DnaHash(vec![5]), None::<u32>),
        Err(ConductorApiError::DnaMissing(DnaHash(vec![5])))
    );
}
