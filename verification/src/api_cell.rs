//! The API through which a cell talks to the conductor that runs it: which
//! cell a zome call is for, and which DNA a cell needs.
//!
//! The conductor itself is outside this library. The API carries a handle to
//! it and decides; the caller performs what was decided.

use vstd::prelude::*;

verus! {

/// The hash that names a DNA, as its bytes.
#[derive(Debug, Hash)]
pub struct DnaHash(pub Vec<u8>);

/// The public key that names an agent, as its bytes.
#[derive(Debug, Hash)]
pub struct AgentPubKey(pub Vec<u8>);

/// Names a cell: the DNA it runs and the agent it runs for.
#[derive(Debug, Hash)]
pub struct CellId {
    dna_hash: DnaHash,
    agent_pubkey: AgentPubKey,
}

/// A cell as contracts speak of it.
pub ghost struct CellIdView {
    pub dna_hash: Seq<u8>,
    pub agent_pubkey: Seq<u8>,
}

/// The failures of the cell API.
#[derive(Debug, PartialEq, Eq)]
pub enum ConductorApiError {
    /// A zome call was handed to the API of one cell but names another.
    ZomeCallCellMismatch { api_cell_id: CellId, call_cell_id: CellId },
    /// The conductor holds no DNA of this hash.
    DnaMissing(DnaHash),
}

/// The API of one cell: a handle to the conductor and the cell's name.
#[derive(Debug)]
pub struct CellConductorApi<H> {
    conductor_handle: H,
    cell_id: CellId,
}

/// Whether two byte strings are the same.
fn same_bytes(a: &Vec<u8>, b: &Vec<u8>) -> (same: bool)
    ensures
        same <==> a@ == b@,
{
    if a.len() != b.len() {
        return false;
    }
    let mut i: usize = 0;
    while i < a.len()
        invariant
            i <= a.len(),
            a.len() == b.len(),
            a@.take(i as int) == b@.take(i as int),
        decreases a.len() - i,
    {
        if a[i] != b[i] {
            return false;
        }
        proof {
            assert(a@.take(i + 1) =~= a@.take(i as int).push(a@[i as int]));
            assert(b@.take(i + 1) =~= b@.take(i as int).push(b@[i as int]));
        }
        i += 1;
    }
    proof {
        assert(a@.take(i as int) =~= a@);
        assert(b@.take(i as int) =~= b@);
    }
    true
}

/// A copy of a byte string.
fn copy_bytes(a: &Vec<u8>) -> (copy: Vec<u8>)
    ensures
        copy@ == a@,
{
    let mut copy: Vec<u8> = Vec::new();
    let mut i: usize = 0;
    while i < a.len()
        invariant
            i <= a.len(),
            copy@ == a@.take(i as int),
        decreases a.len() - i,
    {
        copy.push(a[i]);
        proof {
            assert(a@.take(i + 1) =~= a@.take(i as int).push(a@[i as int]));
        }
        i += 1;
    }
    proof {
        assert(a@.take(i as int) =~= a@);
    }
    copy
}

impl View for DnaHash {
    type V = Seq<u8>;

    open spec fn view(&self) -> Seq<u8> {
        self.0@
    }
}

impl View for AgentPubKey {
    type V = Seq<u8>;

    open spec fn view(&self) -> Seq<u8> {
        self.0@
    }
}

impl View for CellId {
    type V = CellIdView;

    closed spec fn view(&self) -> CellIdView {
        CellIdView { dna_hash: self.dna_hash@, agent_pubkey: self.agent_pubkey@ }
    }
}

impl PartialEq for DnaHash {
    /// Two hashes are equal when their bytes are.
    fn eq(&self, other: &DnaHash) -> (same: bool) {
        same_bytes(&self.0, &other.0)
    }
}

impl vstd::std_specs::cmp::PartialEqSpecImpl for DnaHash {
    open spec fn obeys_eq_spec() -> bool {
        true
    }

    open spec fn eq_spec(&self, other: &DnaHash) -> bool {
        self@ == other@
    }
}

impl Eq for DnaHash {
}

impl PartialEq for AgentPubKey {
    /// Two keys are equal when their bytes are.
    fn eq(&self, other: &AgentPubKey) -> (same: bool) {
        same_bytes(&self.0, &other.0)
    }
}

impl vstd::std_specs::cmp::PartialEqSpecImpl for AgentPubKey {
    open spec fn obeys_eq_spec() -> bool {
        true
    }

    open spec fn eq_spec(&self, other: &AgentPubKey) -> bool {
        self@ == other@
    }
}

impl Eq for AgentPubKey {
}

impl PartialEq for CellId {
    /// Two names are equal when they name the same DNA and the same agent.
    fn eq(&self, other: &CellId) -> (same: bool) {
        self.dna_hash == other.dna_hash && self.agent_pubkey == other.agent_pubkey
    }
}

impl vstd::std_specs::cmp::PartialEqSpecImpl for CellId {
    open spec fn obeys_eq_spec() -> bool {
        true
    }

    open spec fn eq_spec(&self, other: &CellId) -> bool {
        self@ == other@
    }
}

impl Eq for CellId {
}

impl Clone for DnaHash {
    fn clone(&self) -> (copy: DnaHash)
        ensures
            copy@ == self@,
    {
        DnaHash(copy_bytes(&self.0))
    }
}

impl Clone for AgentPubKey {
    fn clone(&self) -> (copy: AgentPubKey)
        ensures
            copy@ == self@,
    {
        AgentPubKey(copy_bytes(&self.0))
    }
}

impl Clone for CellId {
    fn clone(&self) -> (copy: CellId)
        ensures
            copy@ == self@,
    {
        CellId { dna_hash: self.dna_hash.clone(), agent_pubkey: self.agent_pubkey.clone() }
    }
}

impl<H: Clone> Clone for CellConductorApi<H> {
    /// An API of the same cell, on a copy of the handle.
    fn clone(&self) -> (copy: Self)
        ensures
            copy.spec_cell_id()@ == self.spec_cell_id()@,
    {
        Self { conductor_handle: self.conductor_handle.clone(), cell_id: self.cell_id.clone() }
    }
}

impl CellId {
    /// The cell of the given agent on the given DNA.
    pub fn new(dna_hash: DnaHash, agent_pubkey: AgentPubKey) -> (cell_id: CellId)
        ensures
            cell_id@ == (CellIdView { dna_hash: dna_hash@, agent_pubkey: agent_pubkey@ }),
    {
        CellId { dna_hash, agent_pubkey }
    }

    /// The DNA the cell runs.
    pub fn dna_hash(&self) -> (hash: &DnaHash)
        ensures
            hash@ == self@.dna_hash,
    {
        &self.dna_hash
    }

    /// The agent the cell runs for.
    pub fn agent_pubkey(&self) -> (key: &AgentPubKey)
        ensures
            key@ == self@.agent_pubkey,
    {
        &self.agent_pubkey
    }
}

impl ConductorApiError {
    /// Whether the failure is a mismatch between exactly these two cells.
    pub open spec fn is_mismatch(self, api_cell_id: CellIdView, call_cell_id: CellIdView) -> bool {
        self matches ConductorApiError::ZomeCallCellMismatch { api_cell_id: a, call_cell_id: c }
            && a@ == api_cell_id && c@ == call_cell_id
    }

    /// Whether the failure is that exactly this DNA is missing.
    pub open spec fn is_missing(self, dna_hash: Seq<u8>) -> bool {
        self matches ConductorApiError::DnaMissing(hash) && hash@ == dna_hash
    }
}

impl<H> CellConductorApi<H> {
    /// The handle to the conductor.
    pub closed spec fn spec_conductor_handle(&self) -> H {
        self.conductor_handle
    }

    /// The name of the cell this API belongs to.
    pub closed spec fn spec_cell_id(&self) -> CellId {
        self.cell_id
    }

    /// The API of the cell `cell_id`, on the conductor behind the handle.
    pub fn new(conductor_handle: H, cell_id: CellId) -> (api: Self)
        ensures
            api.spec_conductor_handle() == conductor_handle,
            api.spec_cell_id() == cell_id,
    {
        Self { conductor_handle, cell_id }
    }

    /// The name of the cell this API belongs to.
    pub fn cell_id(&self) -> (cell_id: &CellId)
        ensures
            *cell_id == self.spec_cell_id(),
    {
        &self.cell_id
    }

    /// The handle to the conductor, for the caller to act through.
    pub fn conductor_handle(&self) -> (handle: &H)
        ensures
            *handle == self.spec_conductor_handle(),
    {
        &self.conductor_handle
    }

    /// Decides a zome call made through the cell `cell_id` for the cell
    /// `call_cell_id`: the conductor may run it exactly when the two are the
    /// same cell; otherwise the call is refused as a mismatch of the two.
    pub fn call_zome(&self, cell_id: &CellId, call_cell_id: CellId) -> (r: Result<
        (),
        ConductorApiError,
    >)
        ensures
            r is Ok <==> cell_id@ == call_cell_id@,
            r matches Err(e) ==> e.is_mismatch(cell_id@, call_cell_id@),
    {
        if *cell_id == call_cell_id {
            Ok(())
        } else {
            Err(
                ConductorApiError::ZomeCallCellMismatch {
                    api_cell_id: cell_id.clone(),
                    call_cell_id,
                },
            )
        }
    }

    /// Whether a zome call for the cell `call_cell_id` is for this API's own
    /// cell, and so runs on the workspace that the caller holds, rather than
    /// for another cell of the conductor.
    pub fn calls_own_cell(&self, call_cell_id: &CellId) -> (own: bool)
        ensures
            own <==> self.spec_cell_id()@ == call_cell_id@,
    {
        self.cell_id == *call_cell_id
    }

    /// The DNA of the given hash as the conductor's store returned it, or the
    /// failure that names the hash where the store had none.
    pub fn dna_or_missing<D>(&self, dna_hash: &DnaHash, found: Option<D>) -> (r: Result<
        D,
        ConductorApiError,
    >)
        ensures
            match found {
                Some(dna) => r == Ok::<D, ConductorApiError>(dna),
                None => r matches Err(e) && e.is_missing(dna_hash@),
            },
    {
        match found {
            Some(dna) => Ok(dna),
            None => Err(ConductorApiError::DnaMissing(dna_hash.clone())),
        }
    }

    /// The DNA of this API's own cell, given what the conductor's store
    /// returned for the cell's DNA hash, or the failure that names that hash.
    pub fn get_this_dna<D>(&self, found: Option<D>) -> (r: Result<D, ConductorApiError>)
        ensures
            match found {
                Some(dna) => r == Ok::<D, ConductorApiError>(dna),
                None => r matches Err(e) && e.is_missing(self.spec_cell_id()@.dna_hash),
            },
    {
        self.dna_or_missing(self.cell_id.dna_hash(), found)
    }
}

} // verus!
