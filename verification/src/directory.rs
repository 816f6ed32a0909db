//! The directory of instances: what a listing holds, and who in it has a given name.

use vstd::prelude::*;
use crate::fatal::MissingField;
use crate::first::{
    first_where, lemma_first_where_exists, lemma_first_where_found, lemma_first_where_none,
};
use crate::instance::{
    derived, derived_name, is_complete, is_name_tag, is_named, lemma_no_name_tag,
    lemma_single_name_tag, Instance, InstanceView,
};
use crate::provider::{
    opt_seq_view, seq_view, InstanceRecord, InstanceRecordView, ReservationRecord,
};

verus! {

/// The records of one reservation: none where the provider left the list out.
pub open spec fn reserved(reservation: Option<Seq<InstanceRecordView>>) -> Seq<
    InstanceRecordView,
> {
    match reservation {
        Some(records) => records,
        None => Seq::empty(),
    }
}

/// `reserved` as a value, for mapping.
pub open spec fn reserved_records() -> spec_fn(Option<Seq<InstanceRecordView>>) -> Seq<
    InstanceRecordView,
> {
    |reservation: Option<Seq<InstanceRecordView>>| reserved(reservation)
}

/// Every record of a provider's answer, reservation after reservation, each in
/// the order the provider gave.
pub open spec fn records_of(reservations: Option<Seq<Option<Seq<InstanceRecordView>>>>) -> Seq<
    InstanceRecordView,
> {
    match reservations {
        Some(reservations) => reservations.flat_map(reserved_records()),
        None => Seq::empty(),
    }
}

/// Whether a record lacks a field that an instance needs.
pub open spec fn is_deficient(record: InstanceRecordView) -> bool {
    derived(record) is Err
}

/// `is_deficient` as a value, for searching.
pub open spec fn deficiency_test() -> spec_fn(InstanceRecordView) -> bool {
    |record: InstanceRecordView| is_deficient(record)
}

/// What a sequence of records lists: the instance of each record, in the same
/// order, or what the first deficient record lacks.
pub open spec fn listing(records: Seq<InstanceRecordView>) -> Result<
    Seq<InstanceView>,
    MissingField,
> {
    match first_where(records, deficiency_test()) {
        Some(k) => Err(derived(records[k])->Err_0),
        None => Ok(records.map_values(|record: InstanceRecordView| derived(record)->Ok_0)),
    }
}

/// A listing keeps count and order: it holds the instance of every record, each
/// at its record's place. It fails on the first record that is deficient,
/// with what that record lacks.
pub proof fn lemma_listing_in_order(records: Seq<InstanceRecordView>)
    ensures
        match listing(records) {
            Ok(instances) => instances.len() == records.len() && forall|k: int|
                0 <= k < records.len() ==> derived(#[trigger] records[k]) == Ok::<_, MissingField>(
                    instances[k],
                ),
            Err(missing) => exists|k: int|
                0 <= k < records.len() && derived(#[trigger] records[k]) == Err::<InstanceView, _>(
                    missing,
                ) && forall|j: int| 0 <= j < k ==> derived(#[trigger] records[j]) is Ok,
        },
{
    lemma_first_where_none(records, deficiency_test());
}

/// Where every record is complete, every record is listed: as many instances
/// as records, each at its record's place and under the name that its tags
/// give.
pub proof fn lemma_listing_of_complete(records: Seq<InstanceRecordView>)
    requires
        forall|k: int| 0 <= k < records.len() ==> is_complete(#[trigger] records[k]),
    ensures
        listing(records) matches Ok(instances) && instances.len() == records.len() && forall|
            k: int,
        |
            0 <= k < records.len() ==> derived(records[k]) == Ok::<_, MissingField>(
                #[trigger] instances[k],
            ) && instances[k].name == derived_name(records[k].tags),
{
    assert forall|k: int| 0 <= k < records.len() implies !deficiency_test()(
        #[trigger] records[k],
    ) by {
        assert(is_complete(records[k]));
    }
    lemma_first_where_none(records, deficiency_test());
}

/// In a listing of complete records, a record with exactly one tag keyed
/// `"Name"` is listed under that tag's value, whatever other tags stand
/// before or behind it.
pub proof fn lemma_listed_single_name_tag(records: Seq<InstanceRecordView>, k: int, j: int)
    requires
        forall|i: int| 0 <= i < records.len() ==> is_complete(#[trigger] records[i]),
        0 <= k < records.len(),
        records[k].tags matches Some(tags) && 0 <= j < tags.len() && is_name_tag(tags[j])
            && forall|i: int| 0 <= i < tags.len() && i != j ==> !is_name_tag(#[trigger] tags[i]),
    ensures
        listing(records) matches Ok(instances) && instances.len() == records.len()
            && instances[k].name == records[k].tags->0[j].value,
{
    lemma_listing_of_complete(records);
    lemma_single_name_tag(records[k], j);
}

/// In a listing of complete records, a record with no tag keyed `"Name"`, or
/// with no tags at all, is listed all the same, and without a name.
pub proof fn lemma_listed_no_name_tag(records: Seq<InstanceRecordView>, k: int)
    requires
        forall|i: int| 0 <= i < records.len() ==> is_complete(#[trigger] records[i]),
        0 <= k < records.len(),
        records[k].tags matches Some(tags) ==> forall|i: int|
            0 <= i < tags.len() ==> !is_name_tag(#[trigger] tags[i]),
    ensures
        listing(records) matches Ok(instances) && instances.len() == records.len()
            && instances[k].name is None,
{
    lemma_listing_of_complete(records);
    lemma_no_name_tag(records[k]);
}

/// Flattens a provider's answer into one sequence of records, in the provider's order.
pub fn all_records(reservations: &Option<Vec<ReservationRecord>>) -> (records: Vec<
    &InstanceRecord,
>)
    ensures
        seq_view(records@) == records_of(opt_seq_view(*reservations)),
{
    let mut records: Vec<&InstanceRecord> = Vec::new();
    match reservations {
        None => {},
        Some(groups) => {
            let ghost views = seq_view(groups@);
            let mut i: usize = 0;
            while i < groups.len()
                invariant
                    i <= groups.len(),
                    views == seq_view(groups@),
                    seq_view(records@) == views.take(i as int).flat_map(reserved_records()),
                decreases groups.len() - i,
            {
                let ghost before = seq_view(records@);
                proof {
                    views.lemma_flat_map_take_append(reserved_records(), i as int);
                }
                match &groups[i].instances {
                    None => {},
                    Some(members) => {
                        let mut j: usize = 0;
                        while j < members.len()
                            invariant
                                j <= members.len(),
                                seq_view(records@) == before + seq_view(members@).take(j as int),
                            decreases members.len() - j,
                        {
                            let ghost held = records@;
                            records.push(&members[j]);
                            assert(seq_view(records@) =~= seq_view(held).push(members[j as int]@));
                            assert(seq_view(members@).take(j + 1) =~= seq_view(members@).take(
                                j as int,
                            ).push(members[j as int]@));
                            j += 1;
                        }
                    },
                }
                i += 1;
            }
            assert(views.take(i as int) =~= views);
        },
    }
    records
}

/// Lists the instances that a provider's answer describes.
///
/// The instances come in the provider's order, one for each record. Where a
/// record lacks a field, nothing is listed and the answer is what the first
/// such record lacks.
pub fn list(reservations: &Option<Vec<ReservationRecord>>) -> (r: Result<
    Vec<Instance>,
    MissingField,
>)
    ensures
        match r {
            Ok(instances) => listing(records_of(opt_seq_view(*reservations))) == Ok::<
                _,
                MissingField,
            >(seq_view(instances@)),
            Err(missing) => listing(records_of(opt_seq_view(*reservations))) == Err::<
                Seq<InstanceView>,
                _,
            >(missing),
        },
{
    let records = all_records(reservations);
    let ghost views = seq_view(records@);
    let mut instances: Vec<Instance> = Vec::new();
    let mut i: usize = 0;
    while i < records.len()
        invariant
            i <= records.len(),
            views == seq_view(records@),
            views == records_of(opt_seq_view(*reservations)),
            instances.len() == i,
            forall|j: int|
                0 <= j < i ==> derived(#[trigger] views[j]) == Ok::<_, MissingField>(
                    instances[j]@,
                ),
        decreases records.len() - i,
    {
        match Instance::from_record(records[i]) {
            Ok(instance) => {
                instances.push(instance);
            },
            Err(missing) => {
                proof {
                    lemma_first_where_found(views, deficiency_test(), i as int);
                }
                return Err(missing);
            },
        }
        i += 1;
    }
    proof {
        lemma_first_where_none(views, deficiency_test());
        assert(seq_view(instances@) =~= views.map_values(
            |record: InstanceRecordView| derived(record)->Ok_0,
        ));
    }
    Ok(instances)
}

/// `is_named` for one name, as a value, for searching.
pub open spec fn name_test(name: Seq<char>) -> spec_fn(InstanceView) -> bool {
    |instance: InstanceView| is_named(instance, name)
}

/// The position of the first instance that goes by `name`, if any does.
pub open spec fn lookup(instances: Seq<InstanceView>, name: Seq<char>) -> Option<int> {
    first_where(instances, name_test(name))
}

/// Whether `found` is what a search of `instances` for `name` answers: the
/// first instance that goes by the name, itself and no copy, or nothing where
/// none goes by it.
pub open spec fn is_found(
    instances: Seq<Instance>,
    name: Seq<char>,
    found: Option<&Instance>,
) -> bool {
    found == match lookup(seq_view(instances), name) {
        Some(k) => Some(&instances[k]),
        None => None,
    }
}

/// A name that no instance goes by is not found, and only such a name.
pub proof fn lemma_lookup_none(instances: Seq<InstanceView>, name: Seq<char>)
    ensures
        lookup(instances, name) is None <==> forall|k: int|
            0 <= k < instances.len() ==> !is_named(#[trigger] instances[k], name),
{
    lemma_first_where_none(instances, name_test(name));
}

/// Where several instances go by one name, the first of them is found.
pub proof fn lemma_lookup_first(instances: Seq<InstanceView>, name: Seq<char>, k: int)
    requires
        0 <= k < instances.len(),
        is_named(instances[k], name),
    ensures
        lookup(instances, name) matches Some(f) && f <= k && is_named(instances[f], name)
            && forall|j: int| 0 <= j < f ==> !is_named(#[trigger] instances[j], name),
{
    lemma_first_where_exists(instances, name_test(name), k);
}

/// Searching twice gives the same: two answers to one search are one answer.
pub proof fn lemma_find_repeatable(
    instances: Seq<Instance>,
    name: Seq<char>,
    once: Option<&Instance>,
    again: Option<&Instance>,
)
    requires
        is_found(instances, name, once),
        is_found(instances, name, again),
    ensures
        once == again,
{
}

/// Finds the instance that goes by `name`: the first one, where several do.
pub fn find_instance_by_name<'a>(instances: &'a [Instance], name: &str) -> (found: Option<
    &'a Instance,
>)
    ensures
        is_found(instances@, name@, found),
        found is None <==> forall|k: int|
            0 <= k < instances@.len() ==> !is_named(#[trigger] instances@[k]@, name@),
{
    let wanted = name.to_owned();
    let ghost views = seq_view(instances@);
    let mut i: usize = 0;
    while i < instances.len()
        invariant
            i <= instances.len(),
            wanted@ == name@,
            views == seq_view(instances@),
            forall|j: int| 0 <= j < i ==> !name_test(name@)(#[trigger] views[j]),
        decreases instances.len() - i,
    {
        let instance = &instances[i];
        if instance.is_named(&wanted) {
            proof {
                lemma_first_where_found(views, name_test(name@), i as int);
            }
            return Some(instance);
        }
        i += 1;
    }
    proof {
        lemma_first_where_none(views, name_test(name@));
        assert forall|k: int| 0 <= k < instances@.len() implies !is_named(
            #[trigger] instances@[k]@,
            name@,
        ) by {
            assert(!name_test(name@)(views[k]));
        }
    }
    None
}

} // verus!
