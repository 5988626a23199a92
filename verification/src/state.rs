//! The ledger's data model: denominated amounts, projects, donation
//! records, and the full ledger state, together with the mathematical
//! views that the contracts are stated over.

use vstd::prelude::*;

verus! {

/// An amount of one denomination (currency), in base units.
#[derive(Debug, PartialEq, Eq)]
pub struct Coin {
    pub denom: String,
    pub amount: u128,
}

/// Mathematical view of a [`Coin`].
#[verifier::ext_equal]
pub ghost struct CoinV {
    pub denom: Seq<char>,
    pub amount: int,
}

impl View for Coin {
    type V = CoinV;

    open spec fn view(&self) -> CoinV {
        CoinV { denom: self.denom@, amount: self.amount as int }
    }
}

impl DeepView for Coin {
    type V = CoinV;

    open spec fn deep_view(&self) -> CoinV {
        self@
    }
}

/// A registered project: a name and the identity that created it.
/// Immutable after creation; identified by its position in the registry.
#[derive(Debug, PartialEq, Eq)]
pub struct Project {
    pub name: String,
    pub creator: String,
}

/// Mathematical view of a [`Project`].
#[verifier::ext_equal]
pub ghost struct ProjectV {
    pub name: Seq<char>,
    pub creator: Seq<char>,
}

impl Project {
    pub fn new(name: String, creator: String) -> (p: Project)
        ensures
            p@ == (ProjectV { name: name@, creator: creator@ }),
    {
        Project { name, creator }
    }
}

impl View for Project {
    type V = ProjectV;

    open spec fn view(&self) -> ProjectV {
        ProjectV { name: self.name@, creator: self.creator@ }
    }
}

impl DeepView for Project {
    type V = ProjectV;

    open spec fn deep_view(&self) -> ProjectV {
        self@
    }
}

/// One raw donation transaction: the funds as submitted by the patron,
/// before the fee split.
#[derive(Debug, PartialEq, Eq)]
pub struct DonationTx(pub Vec<Coin>);

impl View for DonationTx {
    type V = Seq<CoinV>;

    open spec fn view(&self) -> Seq<CoinV> {
        self.0.deep_view()
    }
}

impl DeepView for DonationTx {
    type V = Seq<CoinV>;

    open spec fn deep_view(&self) -> Seq<CoinV> {
        self@
    }
}

/// One line of the donation journal: which patron donated which funds to
/// which project. The journal is append-only.
#[derive(Debug, PartialEq, Eq)]
pub struct DonationEntry {
    pub project_id: u128,
    pub patron: String,
    pub tx: DonationTx,
}

/// Mathematical view of a [`DonationEntry`].
#[verifier::ext_equal]
pub ghost struct EntryV {
    pub project_id: int,
    pub patron: Seq<char>,
    pub funds: Seq<CoinV>,
}

impl View for DonationEntry {
    type V = EntryV;

    open spec fn view(&self) -> EntryV {
        EntryV { project_id: self.project_id as int, patron: self.patron@, funds: self.tx@ }
    }
}

impl DeepView for DonationEntry {
    type V = EntryV;

    open spec fn deep_view(&self) -> EntryV {
        self@
    }
}

/// The whole ledger state: the project counter, the project registry in
/// creation order, the donation journal in call order, and the operator
/// identity fixed at initialization.
pub struct State {
    pub project_count: u128,
    pub projects: Vec<Project>,
    pub donations: Vec<DonationEntry>,
    pub author: String,
}

/// Mathematical view of the ledger [`State`].
#[verifier::ext_equal]
pub ghost struct StateV {
    pub project_count: int,
    pub projects: Seq<ProjectV>,
    pub donations: Seq<EntryV>,
    pub author: Seq<char>,
}

impl View for State {
    type V = StateV;

    open spec fn view(&self) -> StateV {
        StateV {
            project_count: self.project_count as int,
            projects: self.projects.deep_view(),
            donations: self.donations.deep_view(),
            author: self.author@,
        }
    }
}

impl StateV {
    /// The project counter equals the number of projects ever created:
    /// the registry has no gaps and the counter is the next id to assign.
    pub open spec fn wf(self) -> bool {
        self.project_count == self.projects.len()
    }
}

impl State {
    /// Well-formedness of the ledger; established at initialization and
    /// preserved by every operation.
    pub open spec fn wf(self) -> bool {
        self@.wf()
    }
}

/// The sender of a request together with the funds attached to it.
pub struct MessageInfo {
    pub sender: String,
    pub funds: Vec<Coin>,
}

/// The history of one (project, patron) pair: the raw fund vectors of the
/// journal entries under that key, in append order.
pub open spec fn history_of(dons: Seq<EntryV>, project_id: int, patron: Seq<char>) -> Seq<
    Seq<CoinV>,
>
    decreases dons.len(),
{
    if dons.len() == 0 {
        Seq::empty()
    } else {
        let prefix = history_of(dons.drop_last(), project_id, patron);
        let e = dons.last();
        if e.project_id == project_id && e.patron == patron {
            prefix.push(e.funds)
        } else {
            prefix
        }
    }
}

/// State transition of a successful project creation: one registry entry
/// is appended and the counter moves with it; nothing else changes.
pub open spec fn spec_create(s: StateV, name: Seq<char>, creator: Seq<char>) -> StateV {
    StateV {
        project_count: s.project_count + 1,
        projects: s.projects.push(ProjectV { name, creator }),
        ..s
    }
}

/// State transition of recording one donation: one journal entry is
/// appended; nothing else changes.
pub open spec fn spec_record(
    s: StateV,
    project_id: int,
    patron: Seq<char>,
    funds: Seq<CoinV>,
) -> StateV {
    StateV { donations: s.donations.push(EntryV { project_id, patron, funds }), ..s }
}

/// Appending a journal entry extends the history of its own key by that
/// entry's funds and leaves every other key's history unchanged.
pub proof fn lemma_history_push(dons: Seq<EntryV>, e: EntryV, project_id: int, patron: Seq<char>)
    ensures
        e.project_id == project_id && e.patron == patron ==> history_of(
            dons.push(e),
            project_id,
            patron,
        ) == history_of(dons, project_id, patron).push(e.funds),
        !(e.project_id == project_id && e.patron == patron) ==> history_of(
            dons.push(e),
            project_id,
            patron,
        ) == history_of(dons, project_id, patron),
{
    assert(dons.push(e).drop_last() =~= dons);
    assert(dons.push(e).last() == e);
}

pub fn clone_coin(c: &Coin) -> (r: Coin)
    ensures
        r@ == c@,
{
    Coin { denom: c.denom.clone(), amount: c.amount }
}

pub fn clone_coins(v: &Vec<Coin>) -> (r: Vec<Coin>)
    ensures
        r.deep_view() == v.deep_view(),
{
    let mut r: Vec<Coin> = Vec::new();
    let mut i: usize = 0;
    while i < v.len()
        invariant
            i <= v.len(),
            r.deep_view() =~= v.deep_view().take(i as int),
        decreases v.len() - i,
    {
        r.push(clone_coin(&v[i]));
        assert(r.deep_view() =~= v.deep_view().take(i as int).push(v@[i as int]@));
        assert(v.deep_view().take(i + 1) =~= v.deep_view().take(i as int).push(v@[i as int]@));
        i = i + 1;
    }
    assert(v.deep_view().take(v.len() as int) =~= v.deep_view());
    r
}

pub fn clone_project(p: &Project) -> (r: Project)
    ensures
        r@ == p@,
{
    Project { name: p.name.clone(), creator: p.creator.clone() }
}

pub fn clone_tx(t: &DonationTx) -> (r: DonationTx)
    ensures
        r@ == t@,
{
    DonationTx(clone_coins(&t.0))
}

} // verus!
