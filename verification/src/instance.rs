//! An instance as the tool knows it, and how one is made from a provider's record.

use vstd::prelude::*;
use crate::fatal::MissingField;
use crate::first::{first_where, lemma_first_where_found, lemma_first_where_none};
use crate::provider::{
    name_of_state, opt_seq_view, opt_view, seq_view, state_name, InstanceRecord,
    InstanceRecordView, TagRecord, TagView,
};

verus! {

/// A compute instance: a snapshot taken when the provider was asked.
///
/// The id is never empty.
#[derive(Debug)]
pub struct Instance {
    name: Option<String>,
    id: String,
    instance_type: String,
    private_address: String,
    public_address: Option<String>,
    state: String,
}

/// An instance with its texts as character sequences.
pub struct InstanceView {
    /// The value of the tag keyed `"Name"`, where the instance has one.
    pub name: Option<Seq<char>>,
    /// The identifier the provider gave.
    pub id: Seq<char>,
    /// The provider's label for the class of machine.
    pub instance_type: Seq<char>,
    /// The private address; empty where the provider gave none.
    pub private_address: Seq<char>,
    /// The public address, where one is allocated.
    pub public_address: Option<Seq<char>>,
    /// The name of the lifecycle state.
    pub state: Seq<char>,
}

impl View for Instance {
    type V = InstanceView;

    closed spec fn view(&self) -> InstanceView {
        InstanceView {
            name: opt_view(self.name),
            id: self.id@,
            instance_type: self.instance_type@,
            private_address: self.private_address@,
            public_address: opt_view(self.public_address),
            state: self.state@,
        }
    }
}

/// The tag key that names an instance.
pub open spec fn name_key() -> Seq<char> {
    "Name"@
}

/// Whether a tag is one that names its instance: its key is `"Name"`, to the letter.
pub open spec fn is_name_tag(tag: TagView) -> bool {
    tag.key == Some(name_key())
}

/// `is_name_tag` as a value, for searching.
pub open spec fn name_tag_test() -> spec_fn(TagView) -> bool {
    |tag: TagView| is_name_tag(tag)
}

/// The name that a set of tags gives an instance.
///
/// The first tag keyed `"Name"` decides: its value is the name, absent
/// where the tag has no value. No such tag, or no tags at all, and the
/// instance has no name.
pub open spec fn derived_name(tags: Option<Seq<TagView>>) -> Option<Seq<char>> {
    match tags {
        None => None,
        Some(tags) => match first_where(tags, name_tag_test()) {
            None => None,
            Some(k) => tags[k].value,
        },
    }
}

/// The instance that a record describes, or the first field found missing.
///
/// Only the id, the type and the state's name are needed, and they are
/// looked at in this order. An empty id counts as none. The name is what the
/// tags give. An absent private address becomes the empty text; an absent
/// public address stays absent.
pub open spec fn derived(record: InstanceRecordView) -> Result<InstanceView, MissingField> {
    if record.instance_id is None || record.instance_id->0.len() == 0 {
        Err(MissingField::InstanceId)
    } else if record.instance_type is None {
        Err(MissingField::InstanceType)
    } else if state_name(record.state) is None {
        Err(MissingField::StateName)
    } else {
        Ok(
            InstanceView {
                name: derived_name(record.tags),
                id: record.instance_id->0,
                instance_type: record.instance_type->0,
                private_address: match record.private_ip_address {
                    Some(address) => address,
                    None => Seq::empty(),
                },
                public_address: record.public_ip_address,
                state: state_name(record.state)->0,
            },
        )
    }
}

/// Whether a record has what an instance needs: an id that is not empty, a
/// type, and a state with a name.
pub open spec fn is_complete(record: InstanceRecordView) -> bool {
    &&& record.instance_id matches Some(id) && id.len() > 0
    &&& record.instance_type is Some
    &&& state_name(record.state) is Some
}

/// Complete records make instances, and no others do. The tags never stand
/// in the way.
pub proof fn lemma_complete_is_derived(record: InstanceRecordView)
    ensures
        is_complete(record) <==> derived(record) is Ok,
        derived(record) matches Ok(instance) ==> instance.name == derived_name(record.tags),
{
}

/// No instance is made of a record without an id, or with an empty one.
pub proof fn lemma_derived_has_id(record: InstanceRecordView)
    ensures
        derived(record) matches Ok(instance) ==> instance.id.len() > 0,
{
}

/// A record with exactly one tag keyed `"Name"` is named by that tag's value:
/// by the text where there is one, and not at all where there is none.
pub proof fn lemma_single_name_tag(record: InstanceRecordView, k: int)
    requires
        record.tags matches Some(tags) && 0 <= k < tags.len() && is_name_tag(tags[k])
            && forall|j: int| 0 <= j < tags.len() && j != k ==> !is_name_tag(#[trigger] tags[j]),
    ensures
        derived_name(record.tags) == record.tags->0[k].value,
        derived(record) matches Ok(instance) ==> instance.name == record.tags->0[k].value,
{
    lemma_first_where_found(record.tags->0, name_tag_test(), k);
}

/// A record with no tag keyed `"Name"`, or with no tags at all, has no name.
pub proof fn lemma_no_name_tag(record: InstanceRecordView)
    requires
        record.tags matches Some(tags) ==> forall|j: int|
            0 <= j < tags.len() ==> !is_name_tag(#[trigger] tags[j]),
    ensures
        derived_name(record.tags) is None,
        derived(record) matches Ok(instance) ==> instance.name is None,
{
    if record.tags is Some {
        lemma_first_where_none(record.tags->0, name_tag_test());
    }
}

/// Whether an instance goes by `name`, to the letter.
pub open spec fn is_named(instance: InstanceView, name: Seq<char>) -> bool {
    instance.name == Some(name)
}

/// Finds the name among an instance's tags: the value of the first tag keyed
/// `"Name"`, where there is such a tag and it has a value.
pub fn name_from_tags(tags: &Option<Vec<TagRecord>>) -> (name: Option<String>)
    ensures
        opt_view(name) == derived_name(opt_seq_view(*tags)),
{
    match tags {
        None => None,
        Some(list) => {
            let key = "Name".to_owned();
            let mut i: usize = 0;
            while i < list.len()
                invariant
                    i <= list.len(),
                    *tags == Some(*list),
                    key@ == name_key(),
                    forall|j: int| 0 <= j < i ==> !name_tag_test()(#[trigger] seq_view(list@)[j]),
                decreases list.len() - i,
            {
                let tag = &list[i];
                let named = match &tag.key {
                    Some(k) => *k == key,
                    None => false,
                };
                if named {
                    proof {
                        lemma_first_where_found(seq_view(list@), name_tag_test(), i as int);
                    }
                    return match &tag.value {
                        Some(value) => Some(value.clone()),
                        None => None,
                    };
                }
                i += 1;
            }
            proof {
                lemma_first_where_none(seq_view(list@), name_tag_test());
            }
            None
        },
    }
}

impl Instance {
    #[verifier::type_invariant]
    spec fn has_id(self) -> bool {
        self.id@.len() > 0
    }

    /// Makes an instance from a provider's record, or says which field is missing.
    pub fn from_record(record: &InstanceRecord) -> (r: Result<Instance, MissingField>)
        ensures
            match r {
                Ok(instance) => derived(record@) == Ok::<_, MissingField>(instance@),
                Err(missing) => derived(record@) == Err::<InstanceView, _>(missing),
            },
    {
        let id = match &record.instance_id {
            Some(id) => id.clone(),
            None => { return Err(MissingField::InstanceId); },
        };
        if id.as_str().is_empty() {
            return Err(MissingField::InstanceId);
        }
        let instance_type = match &record.instance_type {
            Some(instance_type) => instance_type.clone(),
            None => { return Err(MissingField::InstanceType); },
        };
        let state = match name_of_state(&record.state) {
            Some(name) => name.clone(),
            None => { return Err(MissingField::StateName); },
        };
        let private_address = match &record.private_ip_address {
            Some(address) => address.clone(),
            None => String::new(),
        };
        let public_address = match &record.public_ip_address {
            Some(address) => Some(address.clone()),
            None => None,
        };
        let name = name_from_tags(&record.tags);
        Ok(Instance { name, id, instance_type, private_address, public_address, state })
    }

    /// Whether the instance goes by `name`, to the letter. An instance without a
    /// name goes by none.
    pub fn is_named(&self, name: &String) -> (named: bool)
        ensures
            named == is_named(self@, name@),
    {
        match &self.name {
            Some(own) => *own == *name,
            None => false,
        }
    }

    /// The name, where the instance has one.
    pub fn name(&self) -> (name: Option<&str>)
        ensures
            opt_view(name) == self@.name,
    {
        match &self.name {
            Some(name) => Some(name.as_str()),
            None => None,
        }
    }

    /// The identifier the provider gave. It is never empty.
    pub fn id(&self) -> (id: &str)
        ensures
            id@ == self@.id,
            id@.len() > 0,
    {
        proof {
            use_type_invariant(self);
        }
        self.id.as_str()
    }

    /// The provider's label for the class of machine.
    pub fn instance_type(&self) -> (instance_type: &str)
        ensures
            instance_type@ == self@.instance_type,
    {
        self.instance_type.as_str()
    }

    /// The private address; empty where the provider gave none.
    pub fn private_address(&self) -> (address: &str)
        ensures
            address@ == self@.private_address,
    {
        self.private_address.as_str()
    }

    /// The public address, where one is allocated.
    pub fn public_address(&self) -> (address: Option<&str>)
        ensures
            opt_view(address) == self@.public_address,
    {
        match &self.public_address {
            Some(address) => Some(address.as_str()),
            None => None,
        }
    }

    /// The name of the lifecycle state the instance was in.
    pub fn state(&self) -> (state: &str)
        ensures
            state@ == self@.state,
    {
        self.state.as_str()
    }
}

} // verus!
