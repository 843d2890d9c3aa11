//! Making the job and the watcher for a slot.

use vstd::prelude::*;

use crate::relays::{MevBoostRelay, MevBoostRelayID};
use crate::socket_bid::TopBidWatcher;
use crate::submit_job::{JobState, SubmissionConfig, SubmitJob};

verus! {

/// The hasher of `ahash`, by which the positions of relays are kept.
#[verifier::external_type_specification]
#[verifier::external_body]
pub struct ExRandomState(ahash::RandomState);

/// What a map of `ahash` holds, by the names that are its keys.
pub uninterp spec fn positions_by_id(map: ahash::HashMap<String, usize>) -> Map<Seq<char>, usize>;

/// An empty map.
///
/// Calls `default` of `ahash::HashMap`, trusted to make a map that holds nothing.
#[verifier::external_body]
fn empty_map() -> (r: ahash::HashMap<String, usize>)
    ensures
        positions_by_id(r).dom() == Set::<Seq<char>>::empty(),
{
    ahash::HashMap::default()
}

/// Puts a position into a map under a name.
///
/// Calls `insert` of `ahash::HashMap`, trusted to hold the position under the name from then on,
/// in place of what it held under it, and to leave the rest as it is.
#[verifier::external_body]
fn insert_position(map: &mut ahash::HashMap<String, usize>, id: String, position: usize)
    ensures
        positions_by_id(*final(map)) == positions_by_id(*old(map)).insert(id@, position),
{
    map.insert(id, position);
}

/// The position that a map holds under a name, where it holds one.
///
/// Calls `get` of `ahash::HashMap`, trusted to find what the map holds under the name.
#[verifier::external_body]
fn get_position(map: &ahash::HashMap<String, usize>, id: &String) -> (r: Option<usize>)
    ensures
        match r {
            Some(position) => positions_by_id(*map).dom().contains(id@) && position
                == positions_by_id(*map)[id@],
            None => !positions_by_id(*map).dom().contains(id@),
        },
{
    map.get(id).copied()
}

/// The positions of relays by their names; of relays with the same name that of the last one.
pub open spec fn last_positions(relays: Seq<MevBoostRelay>) -> Map<Seq<char>, usize>
    decreases relays.len(),
{
    if relays.len() == 0 {
        Map::empty()
    } else {
        last_positions(relays.drop_last()).insert(relays.last().id@, (relays.len() - 1) as usize)
    }
}

/// Relays by their names; of relays with the same name the last one.
pub open spec fn last_by_id(relays: Seq<MevBoostRelay>) -> Map<Seq<char>, MevBoostRelay> {
    last_positions(relays).map_values(|position: usize| relays[position as int])
}

/// Makes what is needed to submit the blocks of a slot to relays.
pub struct RelaySubmitSinkFactory {
    submission_config: SubmissionConfig,
    relays: Vec<MevBoostRelay>,
    positions: ahash::HashMap<MevBoostRelayID, usize>,
}

/// What is needed to submit the blocks of a slot to relays.
pub struct BuilderSink {
    /// Watches the top bid of others.
    pub top_bid_watcher: TopBidWatcher,
    /// Submits the blocks.
    pub job: SubmitJob,
    /// For each relay of the job, its position among those that the factory was made with.
    pub relay_positions: Vec<usize>,
}

impl RelaySubmitSinkFactory {
    #[verifier::type_invariant]
    spec fn names_are_kept(self) -> bool {
        positions_by_id(self.positions) == last_positions(self.relays@)
    }

    /// How blocks are submitted.
    pub closed spec fn config(self) -> SubmissionConfig {
        self.submission_config
    }

    /// The relays that the factory was made with.
    pub closed spec fn relays(self) -> Seq<MevBoostRelay> {
        self.relays@
    }

    /// The relays that are known, by their names.
    pub open spec fn known_relays(self) -> Map<Seq<char>, MevBoostRelay> {
        last_by_id(self.relays())
    }

    /// A factory that knows some relays; of relays with the same name it knows the last one.
    pub fn new(submission_config: SubmissionConfig, relays: Vec<MevBoostRelay>) -> (r: Self)
        ensures
            r.config() == submission_config,
            r.relays() == relays@,
            r.known_relays() == last_by_id(relays@),
    {
        let mut map = empty_map();
        assert(positions_by_id(map) =~= last_positions(relays@.take(0)));
        for i in 0..relays.len()
            invariant
                positions_by_id(map) == last_positions(relays@.take(i as int)),
        {
            assert(relays@.take(i + 1).drop_last() =~= relays@.take(i as int));
            insert_position(&mut map, relays[i].id.clone(), i);
        }
        assert(relays@.take(relays@.len() as int) =~= relays@);
        RelaySubmitSinkFactory { submission_config, relays, positions: map }
    }

    /// The position of the first name in `ids` that is not that of a known relay.
    pub fn missing_relay(&self, ids: &Vec<MevBoostRelayID>) -> (r: Option<usize>)
        ensures
            match r {
                Some(p) => p < ids@.len() && !self.known_relays().dom().contains(ids@[p as int]@)
                    && forall|i: int|
                    0 <= i < p ==> self.known_relays().dom().contains((#[trigger] ids@[i])@),
                None => forall|i: int|
                    0 <= i < ids@.len() ==> self.known_relays().dom().contains(
                        (#[trigger] ids@[i])@,
                    ),
            },
            r matches Some(p) ==> (forall|i: int|
                0 <= i < self.relays().len() ==> (#[trigger] self.relays()[i]).id@
                    != ids@[p as int]@),
    {
        proof {
            use_type_invariant(self);
            assert(self.relays.len() <= usize::MAX);
        }
        for i in 0..ids.len()
            invariant
                positions_by_id(self.positions) == last_positions(self.relays@),
                self.relays@.len() <= usize::MAX,
                forall|j: int|
                    0 <= j < i ==> self.known_relays().dom().contains((#[trigger] ids@[j])@),
        {
            if get_position(&self.positions, &ids[i]).is_none() {
                proof {
                    last_relay_of_a_name_is_known(self.relays@, ids@[i as int]@);
                }
                return Some(i);
            }
        }
        None
    }

    /// The position and the relay that a known name stands for.
    fn known_relay(&self, id: &MevBoostRelayID) -> (r: (usize, MevBoostRelay))
        requires
            self.known_relays().dom().contains(id@),
        ensures
            r.0 == last_positions(self.relays())[id@],
            r.0 < self.relays().len(),
            r.1 == self.known_relays()[id@],
            r.1 == self.relays()[r.0 as int],
            r.1.id@ == id@,
            forall|p: int| r.0 < p < self.relays().len() ==> (#[trigger] self.relays()[p]).id@ != id@,
    {
        proof {
            use_type_invariant(self);
            assert(self.relays.len() <= usize::MAX);
            last_relay_of_a_name_is_known(self.relays@, id@);
        }
        let position = get_position(&self.positions, id).unwrap();
        (position, self.relays[position].clone())
    }

    /// The watcher and the job for a slot whose relays have the names `slot_relays`, all of which
    /// are known.
    pub fn create_builder_sink(&self, slot_relays: &Vec<MevBoostRelayID>) -> (r: BuilderSink)
        requires
            forall|i: int|
                0 <= i < slot_relays@.len() ==> self.known_relays().dom().contains(
                    (#[trigger] slot_relays@[i])@,
                ),
        ensures
            r.top_bid_watcher@ == 0,
            r.job@ == JobState::fresh(
                self.config(),
                Seq::new(slot_relays@.len(), |i: int| self.known_relays()[slot_relays@[i]@]),
            ),
            r.relay_positions@ == Seq::new(
                slot_relays@.len(),
                |i: int| last_positions(self.relays())[slot_relays@[i]@],
            ),
            forall|i: int|
                0 <= i < slot_relays@.len() ==> (#[trigger] r.relay_positions@[i])
                    < self.relays().len() && r.job@.relays[i]
                    == self.relays()[r.relay_positions@[i] as int],
            r.job@.relays.len() == slot_relays@.len(),
            r.job@.config == self.config(),
            forall|i: int|
                0 <= i < slot_relays@.len() ==> (#[trigger] r.job@.relays[i]).id@
                    == slot_relays@[i]@,
            forall|i: int, p: int|
                0 <= i < slot_relays@.len() && r.relay_positions@[i] < p < self.relays().len()
                    ==> (#[trigger] self.relays()[p]).id@ != (#[trigger] slot_relays@[i])@,
    {
        let mut relays: Vec<MevBoostRelay> = Vec::new();
        let mut relay_positions: Vec<usize> = Vec::new();
        for i in 0..slot_relays.len()
            invariant
                forall|j: int|
                    0 <= j < slot_relays@.len() ==> self.known_relays().dom().contains(
                        (#[trigger] slot_relays@[j])@,
                    ),
                relays@.len() == i,
                relay_positions@.len() == i,
                forall|j: int|
                    0 <= j < i ==> #[trigger] relays@[j]
                        == self.known_relays()[slot_relays@[j]@],
                forall|j: int|
                    0 <= j < i ==> #[trigger] relay_positions@[j] == last_positions(
                        self.relays(),
                    )[slot_relays@[j]@],
                forall|j: int|
                    0 <= j < i ==> (#[trigger] relay_positions@[j]) < self.relays().len()
                        && relays@[j] == self.relays()[relay_positions@[j] as int],
                forall|j: int|
                    0 <= j < i ==> (#[trigger] relays@[j]).id@ == slot_relays@[j]@,
                forall|j: int, p: int|
                    0 <= j < i && relay_positions@[j] < p < self.relays().len() ==> (
                    #[trigger] self.relays()[p]).id@ != (#[trigger] slot_relays@[j])@,
        {
            assert(self.known_relays().dom().contains(slot_relays@[i as int]@));
            let (position, relay) = self.known_relay(&slot_relays[i]);
            relays.push(relay);
            relay_positions.push(position);
        }
        assert(relays@ =~= Seq::new(
            slot_relays@.len(),
            |i: int| self.known_relays()[slot_relays@[i]@],
        ));
        BuilderSink {
            top_bid_watcher: TopBidWatcher::new(),
            job: SubmitJob::new(self.submission_config, relays),
            relay_positions,
        }
    }
}

/// A name is known exactly if a relay has it, and stands for the last relay that has it.
pub proof fn last_relay_of_a_name_is_known(relays: Seq<MevBoostRelay>, id: Seq<char>)
    requires
        relays.len() <= usize::MAX,
    ensures
        last_by_id(relays).dom() == last_positions(relays).dom(),
        if last_by_id(relays).dom().contains(id) {
            let position = last_positions(relays)[id] as int;
            &&& position < relays.len()
            &&& last_by_id(relays)[id] == relays[position]
            &&& relays[position].id@ == id
            &&& forall|i: int| position < i < relays.len() ==> (#[trigger] relays[i]).id@ != id
        } else {
            forall|i: int| 0 <= i < relays.len() ==> (#[trigger] relays[i]).id@ != id
        },
    decreases relays.len(),
{
    if relays.len() > 0 {
        let rest = relays.drop_last();
        last_relay_of_a_name_is_known(rest, id);
        assert forall|i: int| 0 <= i < rest.len() implies #[trigger] relays[i] == rest[i] by {}
    }
}

/// A name is known to a factory exactly if one of its relays has it.
pub proof fn names_of_relays_are_known(factory: RelaySubmitSinkFactory, id: Seq<char>)
    requires
        factory.relays().len() <= usize::MAX,
    ensures
        factory.known_relays().dom().contains(id) <==> exists|i: int|
            0 <= i < factory.relays().len() && (#[trigger] factory.relays()[i]).id@ == id,
        factory.known_relays().dom().contains(id) ==> factory.known_relays()[id].id@ == id,
{
    last_relay_of_a_name_is_known(factory.relays(), id);
    if factory.known_relays().dom().contains(id) {
        let p = last_positions(factory.relays())[id] as int;
        assert(factory.relays()[p].id@ == id);
    }
}

} // verus!
