use std::sync::Arc;
use vstd::prelude::*;

use crate::common::error::Error;
use crate::common::variant::Variant;
use crate::entities::stored_image::{self, lookup_view, Image, ImageView};
use crate::usecases::gateways::Storage;

verus! {

/// The read path: an asset is reported only when both of its artifacts are
/// in the store.
pub struct GetImage<S: Storage> {
    storage: Arc<S>,
}

/// Builds the read path over a store.
pub fn new<S: Storage>(storage: Arc<S>) -> (reader: GetImage<S>)
    ensures
        *reader.storage() == *storage,
{
    GetImage { storage }
}

/// Which of an asset's two artifacts a pair of probes found.
#[derive(Debug, Clone, Copy, PartialEq, Eq, Structural)]
pub enum Presence {
    Both,
    /// An anomaly: the derived artifact is missing.
    OnlyOriginal,
    /// An anomaly: the original is missing.
    OnlyDerived,
    Neither,
}

/// What a lookup learned: the asset, if it is whole, and which of its
/// artifacts the store holds.
#[derive(Debug, Clone)]
pub struct Lookup {
    pub image: Option<Image>,
    pub presence: Presence,
}

/// Which artifacts two successful probes found.
pub open spec fn presence_of(
    original: Option<(String, String)>,
    derived: Option<(String, String)>,
) -> Presence {
    match (original, derived) {
        (Some(_), Some(_)) => Presence::Both,
        (Some(_), None) => Presence::OnlyOriginal,
        (None, Some(_)) => Presence::OnlyDerived,
        (None, None) => Presence::Neither,
    }
}

/// The asset of a lookup's result, if it found one.
pub open spec fn found_image(res: Result<Lookup, Error>) -> Result<Option<Image>, Error> {
    match res {
        Ok(lookup) => Ok(lookup.image),
        Err(e) => Err(e),
    }
}

/// What two probes amount to: the asset when both artifacts are there,
/// nothing when either is missing, and a failed probe as the failure (that
/// of the original first).
pub open spec fn resolved(
    file_name: Seq<char>,
    original: Result<Option<(String, String)>, Error>,
    derived: Result<Option<(String, String)>, Error>,
) -> Result<Option<ImageView>, Error> {
    match (original, derived) {
        (Ok(Some(o)), Ok(Some(d))) => Ok(
            Some(
                ImageView {
                    file_name,
                    original_url: o.0@,
                    original_content_type: o.1@,
                    formatted_url: d.0@,
                    formatted_content_type: d.1@,
                },
            ),
        ),
        (Err(e), _) => Err(e),
        (Ok(_), Err(e)) => Err(e),
        (Ok(_), Ok(_)) => Ok(None),
    }
}

/// Classifies what two successful probes found, so that a caller can
/// report a half-stored asset.
pub fn presence(original: &Option<(String, String)>, derived: &Option<(String, String)>) -> (p:
    Presence)
    ensures
        p == presence_of(*original, *derived),
{
    match (original, derived) {
        (Some(_), Some(_)) => Presence::Both,
        (Some(_), None) => Presence::OnlyOriginal,
        (None, Some(_)) => Presence::OnlyDerived,
        (None, None) => Presence::Neither,
    }
}

/// Turns the answers of the two probes into the lookup's result.
pub fn resolve(
    file_name: String,
    original: Result<Option<(String, String)>, Error>,
    derived: Result<Option<(String, String)>, Error>,
) -> (res: Result<Option<Image>, Error>)
    ensures
        lookup_view(res) == resolved(file_name@, original, derived),
{
    match (original, derived) {
        (Ok(Some(o)), Ok(Some(d))) => Ok(Some(stored_image::new(file_name, o.0, o.1, d.0, d.1))),
        (Err(e), _) => Err(e),
        (Ok(_), Err(e)) => Err(e),
        (Ok(_), Ok(_)) => Ok(None),
    }
}

impl<S: Storage> GetImage<S> {
    /// The store this read path probes.
    pub closed spec fn storage(&self) -> &S {
        &*self.storage
    }

    /// `answer` is an answer that the store may give to a probe for the
    /// object `file_name` of `variant`.
    pub open spec fn probed_by(
        &self,
        variant: Variant,
        file_name: String,
        answer: Result<Option<(String, String)>, Error>,
    ) -> bool {
        call_ensures(S::get, (self.storage(), variant, file_name), answer)
    }

    /// One lookup, step by step: `original` is what the store answered to
    /// the probe for the original, `derived` what it answered to the probe
    /// for the variant, and `res` is what the two amount to.
    pub open spec fn looks_up(
        &self,
        file_name: String,
        variant: Variant,
        original: Result<Option<(String, String)>, Error>,
        derived: Result<Option<(String, String)>, Error>,
        res: Result<Option<Image>, Error>,
    ) -> bool {
        &&& self.probed_by(Variant::Original, file_name, original)
        &&& self.probed_by(variant, file_name, derived)
        &&& lookup_view(res) == resolved(file_name@, original, derived)
    }

    /// `res` is a result that looking up `file_name` may have.
    pub open spec fn looked_up(
        &self,
        file_name: String,
        variant: Variant,
        res: Result<Option<Image>, Error>,
    ) -> bool {
        exists|
            original: Result<Option<(String, String)>, Error>,
            derived: Result<Option<(String, String)>, Error>,
        |
            self.looks_up(file_name, variant, original, derived, res)
    }

    /// One inspection, step by step: a lookup with the answers `original`
    /// and `derived`, whose result also says which artifacts they found.
    pub open spec fn inspects(
        &self,
        file_name: String,
        variant: Variant,
        original: Result<Option<(String, String)>, Error>,
        derived: Result<Option<(String, String)>, Error>,
        res: Result<Lookup, Error>,
    ) -> bool {
        &&& self.looks_up(file_name, variant, original, derived, found_image(res))
        &&& match res {
            Ok(lookup) => original is Ok && derived is Ok && lookup.presence == presence_of(
                original->Ok_0,
                derived->Ok_0,
            ),
            Err(_) => true,
        }
    }

    /// `res` is a result that inspecting `file_name` may have.
    pub open spec fn inspected(
        &self,
        file_name: String,
        variant: Variant,
        res: Result<Lookup, Error>,
    ) -> bool {
        exists|
            original: Result<Option<(String, String)>, Error>,
            derived: Result<Option<(String, String)>, Error>,
        |
            self.inspects(file_name, variant, original, derived, res)
    }

    /// Looks up the asset `file_name` with its `variant`, and says which of
    /// its artifacts are stored, so that a half-stored asset can be
    /// reported. The store is probed for the original and for the variant,
    /// always both.
    pub fn inspect(&self, file_name: String, variant: Variant) -> (res: Result<Lookup, Error>)
        ensures
            self.inspected(file_name, variant, res),
    {
        let original = self.storage.get(Variant::Original, file_name.clone());
        let derived = self.storage.get(variant, file_name.clone());
        let ghost name = file_name;
        let presence = match (&original, &derived) {
            (Ok(o), Ok(d)) => presence(o, d),
            _ => Presence::Neither,
        };
        let res = match resolve(file_name, original, derived) {
            Ok(image) => Ok(Lookup { image, presence }),
            Err(e) => Err(e),
        };
        proof {
            assert(self.inspects(name, variant, original, derived, res));
        }
        res
    }

    /// Looks up the asset `file_name` with its `variant`: probes the store
    /// for the original and for the variant, always both, and reports the
    /// asset only if both are there.
    pub fn execute(&self, file_name: String, variant: Variant) -> (res: Result<
        Option<Image>,
        Error,
    >)
        ensures
            self.looked_up(file_name, variant, res),
    {
        let found = self.inspect(file_name, variant);
        proof {
            let (original, derived) = choose|
                original: Result<Option<(String, String)>, Error>,
                derived: Result<Option<(String, String)>, Error>,
            | self.inspects(file_name, variant, original, derived, found);
            assert(self.looks_up(file_name, variant, original, derived, found_image(found)));
        }
        match found {
            Ok(lookup) => Ok(lookup.image),
            Err(e) => Err(e),
        }
    }
}

/// An asset is never seen half-stored: a lookup yields an asset exactly when
/// both probes found their artifact, and yields nothing, without failing,
/// when the probes succeeded and either artifact is missing.
pub proof fn lemma_asset_needs_both_artifacts(
    file_name: Seq<char>,
    original: Result<Option<(String, String)>, Error>,
    derived: Result<Option<(String, String)>, Error>,
)
    ensures
        resolved(file_name, original, derived) matches Ok(Some(_)) <==> (original matches Ok(
            Some(_),
        ) && derived matches Ok(Some(_))),
        (original matches Ok(o) && derived matches Ok(d) && presence_of(o, d) != Presence::Both)
            ==> resolved(file_name, original, derived) == Ok::<Option<ImageView>, Error>(None),
{
}

} // verus!
