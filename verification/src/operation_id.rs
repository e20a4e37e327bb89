//! The IDs by which RPC callers refer to async operations.

use vstd::prelude::*;

use crate::error::{LegacyCode, RpcError};
use crate::text::{join, strip_prefix};
use crate::uuid_text::{draw_uuid, parses_as_uuid};

verus! {

/// What every operation ID begins with.
pub open spec fn id_prefix() -> Seq<char> {
    "opid-"@
}

/// Whether `text` is an operation ID: the prefix, then a UUID.
pub open spec fn is_operation_id(text: Seq<char>) -> bool {
    &&& id_prefix().is_prefix_of(text)
    &&& crate::uuid_text::is_uuid(text.skip(id_prefix().len() as int))
}

/// Whether `text` is an operation ID as it is made for a new operation: the prefix, then a random
/// UUID that was drawn for it.
pub open spec fn is_generated_id(text: Seq<char>) -> bool {
    &&& id_prefix().is_prefix_of(text)
    &&& crate::uuid_text::was_drawn(text.skip(id_prefix().len() as int))
    &&& crate::uuid_text::is_random_uuid(text.skip(id_prefix().len() as int))
}

/// An async operation ID.
#[derive(Debug, Hash)]
pub struct OperationId(String);

impl View for OperationId {
    type V = Seq<char>;

    closed spec fn view(&self) -> Seq<char> {
        self.0@
    }
}

impl OperationId {
    #[verifier::type_invariant]
    spec fn valid(self) -> bool {
        is_operation_id(self.0@)
    }

    /// Makes an ID for a new operation, out of a random UUID.
    pub fn new() -> (id: Self)
        ensures
            is_generated_id(id@),
            crate::uuid_text::was_drawn(id@.skip("opid-"@.len() as int)),
            is_operation_id(id@),
    {
        let uuid = draw_uuid();
        let text = join("opid-", uuid.as_str());
        assert(text@.take(id_prefix().len() as int) =~= id_prefix());
        assert(text@.skip(id_prefix().len() as int) =~= uuid@);
        OperationId(text)
    }

    /// Returns the ID as text.
    pub fn as_str(&self) -> (text: &str)
        ensures
            text@ == self@,
            is_operation_id(text@),
    {
        proof {
            use_type_invariant(self);
        }
        self.0.as_str()
    }
}

impl TryFrom<String> for OperationId {
    type Error = RpcError;

    /// Reads an ID back from its text.
    fn try_from(value: String) -> (id: Result<Self, Self::Error>)
        ensures
            match id {
                Ok(id) => is_operation_id(value@) && id@ == value@,
                Err(error) => !is_operation_id(value@) && error@
                    == LegacyCode::InvalidParameter.error("Invalid operation ID"@) && error.code
                    == LegacyCode::InvalidParameter.number() && error.message@
                    == "Invalid operation ID"@ && error.data is None,
            },
    {
        let uuid = match strip_prefix(value.as_str(), "opid-") {
            Some(uuid) => uuid,
            None => {
                return Err(LegacyCode::InvalidParameter.with_static("Invalid operation ID"));
            },
        };
        proof {
            assert(value@.take(id_prefix().len() as int) =~= id_prefix());
            assert(value@.skip(id_prefix().len() as int) =~= uuid@);
        }
        if !parses_as_uuid(uuid) {
            return Err(LegacyCode::InvalidParameter.with_static("Invalid operation ID"));
        }
        Ok(OperationId(value))
    }
}

impl vstd::std_specs::convert::TryFromSpecImpl<String> for OperationId {
    open spec fn obeys_try_from_spec() -> bool {
        false
    }

    open spec fn try_from_spec(value: String) -> Result<Self, RpcError> {
        arbitrary()
    }
}

impl Clone for OperationId {
    fn clone(&self) -> (id: Self)
        ensures
            id@ == self@,
    {
        proof {
            use_type_invariant(self);
        }
        OperationId(self.0.clone())
    }
}

impl PartialEq for OperationId {
    fn eq(&self, other: &Self) -> (same: bool) {
        self.0 == other.0
    }
}

impl vstd::std_specs::cmp::PartialEqSpecImpl for OperationId {
    open spec fn obeys_eq_spec() -> bool {
        true
    }

    open spec fn eq_spec(&self, other: &Self) -> bool {
        self@ == other@
    }
}

impl Eq for OperationId {

}

/// An ID that was made for a new operation is accepted when a caller hands it back.
pub proof fn law_generated_ids_are_accepted(text: Seq<char>)
    requires
        is_generated_id(text),
    ensures
        is_operation_id(text),
{
}

/// An ID that was made for a new operation is the prefix and a UUID that the random source gave,
/// and not one that was settled in advance.
pub proof fn law_generated_ids_hold_a_drawn_uuid(text: Seq<char>)
    requires
        is_generated_id(text),
    ensures
        text == "opid-"@ + text.skip("opid-"@.len() as int),
        crate::uuid_text::was_drawn(text.skip("opid-"@.len() as int)),
        crate::uuid_text::is_random_uuid(text.skip("opid-"@.len() as int)),
{
    assert(text =~= text.take("opid-"@.len() as int) + text.skip("opid-"@.len() as int));
}

/// The prefix followed by a text is an operation ID exactly if that text is a UUID.
pub proof fn law_id_is_prefix_and_uuid(uuid: Seq<char>)
    ensures
        is_operation_id(id_prefix() + uuid) <==> crate::uuid_text::is_uuid(uuid),
{
    let text = id_prefix() + uuid;
    assert(text.take(id_prefix().len() as int) =~= id_prefix());
    assert(text.skip(id_prefix().len() as int) =~= uuid);
}

/// Every operation ID is `opid-` followed by a UUID, and every such text is one.
pub proof fn law_ids_are_opid_and_a_uuid(text: Seq<char>)
    ensures
        is_operation_id(text) <==> exists|uuid: Seq<char>| #[trigger]
            crate::uuid_text::is_uuid(uuid) && text == "opid-"@ + uuid,
{
    if is_operation_id(text) {
        let uuid = text.skip("opid-"@.len() as int);
        assert(text =~= text.take("opid-"@.len() as int) + uuid);
        assert(crate::uuid_text::is_uuid(uuid));
    }
    if exists|uuid: Seq<char>| #[trigger]
        crate::uuid_text::is_uuid(uuid) && text == "opid-"@ + uuid {
        let uuid = choose|uuid: Seq<char>| #[trigger]
            crate::uuid_text::is_uuid(uuid) && text == "opid-"@ + uuid;
        law_id_is_prefix_and_uuid(uuid);
    }
}

/// Whether `==` on a type goes by its specification.
pub open spec fn equality_is_specified<T: vstd::std_specs::cmp::PartialEqSpec>() -> bool {
    T::obeys_eq_spec()
}

/// Two IDs are equal exactly if they are the same text.
pub proof fn law_ids_are_equal_as_texts(a: OperationId, b: OperationId)
    ensures
        equality_is_specified::<OperationId>(),
        vstd::std_specs::cmp::PartialEqSpec::eq_spec(&a, &b) <==> a@ == b@,
{
}

} // verus!
