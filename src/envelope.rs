use vstd::prelude::*;

use crate::decode::{entries_from, FromJson, Keyed};
use crate::error::ClientError;
use crate::json::{field, is_missing, member, take_field, Json, Members};
use crate::response::{check_json_response, is_json_type, is_success};
use crate::routes::Payload;
use crate::model::{
    opt_members_fits, opt_members_of, take_opt_members, Association, Chromosome, Study,
    SummaryStatsFile, Trait,
};

verus! {

/// A paginated, linked response: the embedded payload keyed by resource
/// name, and the links of the page. Either may be absent; an envelope with
/// neither means no results.
#[derive(Debug, PartialEq)]
pub struct HalResponse<T> {
    pub embedded: Option<Vec<(String, T)>>,
    pub links: Option<Members>,
}

/// A page of associations, each keyed by its id.
pub type AssociationsPage = HalResponse<Keyed<Association>>;

/// A page of chromosomes.
pub type ChromosomesPage = HalResponse<Vec<Chromosome>>;

/// A page of studies, grouped as the service groups them.
pub type StudyGroupsPage = HalResponse<Vec<Vec<Study>>>;

/// A page of studies.
pub type StudiesPage = HalResponse<Vec<Study>>;

/// A page of traits.
pub type TraitsPage = HalResponse<Vec<Trait>>;

/// A page of summary-statistics files.
pub type FilesPage = HalResponse<Vec<SummaryStatsFile>>;

/// Whether the embedded member of an envelope decodes: missing, or an object
/// of payloads.
pub open spec fn embedded_fits<T: FromJson>(v: Option<Json>) -> bool {
    is_missing(v) || (v matches Some(e) && Keyed::<T>::fits(e))
}

/// `r` is what the embedded member of an envelope decodes to.
pub open spec fn embedded_of<T: FromJson>(v: Option<Json>, r: Option<Vec<(String, T)>>) -> bool {
    match r {
        None => is_missing(v),
        Some(es) => v matches Some(e) && e != Json::Null && entries_from(es@, e),
    }
}

/// The two member names of an envelope differ.
proof fn lemma_envelope_keys_differ()
    ensures
        "_embedded"@ != "_links"@,
{
    reveal_strlit("_embedded");
    reveal_strlit("_links");
    assert("_embedded"@.len() == 9);
    assert("_links"@.len() == 6);
}

impl<T: FromJson> FromJson for HalResponse<T> {
    open spec fn fits(j: Json) -> bool {
        &&& j is Object
        &&& embedded_fits::<T>(member(j, "_embedded"@))
        &&& opt_members_fits(member(j, "_links"@))
    }

    open spec fn decoded_from(&self, j: Json) -> bool {
        &&& j is Object
        &&& embedded_of(member(j, "_embedded"@), self.embedded)
        &&& opt_members_of(member(j, "_links"@), self.links)
    }

    fn from_json(j: Json) -> (r: Result<Self, ClientError>) {
        match j {
            Json::Object(mut ms) => {
                proof {
                    lemma_envelope_keys_differ();
                }
                let embedded = match take_field(&mut ms, "_embedded") {
                    None => None,
                    Some(Json::Null) => None,
                    Some(e) => match Keyed::<T>::from_json(e) {
                        Ok(k) => Some(k.entries),
                        Err(err) => return Err(err),
                    },
                };
                let links = match take_opt_members(&mut ms, "_links") {
                    Ok(l) => l,
                    Err(err) => return Err(err),
                };
                Ok(HalResponse { embedded, links })
            },
            _ => Err(crate::decode::shape_error("envelope")),
        }
    }
}

/// An empty object decodes, as any envelope, to one with neither payload nor
/// links.
pub proof fn lemma_empty_envelope<T: FromJson>(ms: Members, r: HalResponse<T>)
    requires
        ms@.len() == 0,
    ensures
        HalResponse::<T>::fits(Json::Object(ms)),
        r.decoded_from(Json::Object(ms)) ==> r.embedded is None && r.links is None,
{
}

/// An object whose only member is an embedded payload decodes to an envelope
/// without links, and with the payload exactly when the payload has its shape.
pub proof fn lemma_embedded_only_envelope<T: FromJson>(ms: Members, r: HalResponse<T>)
    requires
        ms@.len() == 1,
        ms@[0].0@ == "_embedded"@,
    ensures
        HalResponse::<T>::fits(Json::Object(ms)) <==> Keyed::<T>::fits(ms@[0].1) || ms@[0].1
            == Json::Null,
        r.decoded_from(Json::Object(ms)) ==> r.links is None,
        r.decoded_from(Json::Object(ms)) && ms@[0].1 != Json::Null ==> r.embedded is Some,
{
    lemma_envelope_keys_differ();
    assert(ms@.drop_first().len() == 0);
    assert(field(ms@, "_embedded"@) == Some(ms@[0].1));
    assert(field(ms@, "_links"@) == field(ms@.drop_first(), "_links"@));
}

/// A decoded response body, of the kind its route names.
#[derive(Debug, PartialEq)]
pub enum Fetched {
    Associations(AssociationsPage),
    Chromosomes(ChromosomesPage),
    Chromosome(Chromosome),
    StudyGroups(StudyGroupsPage),
    Studies(StudiesPage),
    Study(Study),
    Traits(TraitsPage),
    Trait(Trait),
    Files(FilesPage),
}

/// Whether `j` has the shape of payload kind `p`.
pub open spec fn payload_fits(p: Payload, j: Json) -> bool {
    match p {
        Payload::AssociationsPage => <AssociationsPage as FromJson>::fits(j),
        Payload::ChromosomesPage => <ChromosomesPage as FromJson>::fits(j),
        Payload::Chromosome => <Chromosome as FromJson>::fits(j),
        Payload::StudyGroupsPage => <StudyGroupsPage as FromJson>::fits(j),
        Payload::StudiesPage => <StudiesPage as FromJson>::fits(j),
        Payload::Study => <Study as FromJson>::fits(j),
        Payload::TraitsPage => <TraitsPage as FromJson>::fits(j),
        Payload::Trait => <Trait as FromJson>::fits(j),
        Payload::FilesPage => <FilesPage as FromJson>::fits(j),
    }
}

/// Whether `f` is what `j` decodes to as payload kind `p`.
pub open spec fn fetched_from(p: Payload, f: Fetched, j: Json) -> bool {
    match (p, f) {
        (Payload::AssociationsPage, Fetched::Associations(x)) => x.decoded_from(j),
        (Payload::ChromosomesPage, Fetched::Chromosomes(x)) => x.decoded_from(j),
        (Payload::Chromosome, Fetched::Chromosome(x)) => x.decoded_from(j),
        (Payload::StudyGroupsPage, Fetched::StudyGroups(x)) => x.decoded_from(j),
        (Payload::StudiesPage, Fetched::Studies(x)) => x.decoded_from(j),
        (Payload::Study, Fetched::Study(x)) => x.decoded_from(j),
        (Payload::TraitsPage, Fetched::Traits(x)) => x.decoded_from(j),
        (Payload::Trait, Fetched::Trait(x)) => x.decoded_from(j),
        (Payload::FilesPage, Fetched::Files(x)) => x.decoded_from(j),
        _ => false,
    }
}

/// Decodes a response body as payload kind `p`: succeeds exactly when the
/// body has that shape.
pub fn decode_payload(p: Payload, j: Json) -> (r: Result<Fetched, ClientError>)
    ensures
        r is Ok <==> payload_fits(p, j),
        match r {
            Ok(f) => fetched_from(p, f, j),
            Err(e) => e is Decode,
        },
{
    match p {
        Payload::AssociationsPage => match AssociationsPage::from_json(j) {
            Ok(x) => Ok(Fetched::Associations(x)),
            Err(e) => Err(e),
        },
        Payload::ChromosomesPage => match ChromosomesPage::from_json(j) {
            Ok(x) => Ok(Fetched::Chromosomes(x)),
            Err(e) => Err(e),
        },
        Payload::Chromosome => match Chromosome::from_json(j) {
            Ok(x) => Ok(Fetched::Chromosome(x)),
            Err(e) => Err(e),
        },
        Payload::StudyGroupsPage => match StudyGroupsPage::from_json(j) {
            Ok(x) => Ok(Fetched::StudyGroups(x)),
            Err(e) => Err(e),
        },
        Payload::StudiesPage => match StudiesPage::from_json(j) {
            Ok(x) => Ok(Fetched::Studies(x)),
            Err(e) => Err(e),
        },
        Payload::Study => match Study::from_json(j) {
            Ok(x) => Ok(Fetched::Study(x)),
            Err(e) => Err(e),
        },
        Payload::TraitsPage => match TraitsPage::from_json(j) {
            Ok(x) => Ok(Fetched::Traits(x)),
            Err(e) => Err(e),
        },
        Payload::Trait => match Trait::from_json(j) {
            Ok(x) => Ok(Fetched::Trait(x)),
            Err(e) => Err(e),
        },
        Payload::FilesPage => match FilesPage::from_json(j) {
            Ok(x) => Ok(Fetched::Files(x)),
            Err(e) => Err(e),
        },
    }
}

/// Reads a response of payload kind `p`: the status and declared content type
/// are checked as `check_json_response` does; then a body that is not JSON
/// (`parsed` is `None`) is a `Decode` error, and JSON is decoded as `p`.
pub fn read_response(
    p: Payload,
    status: u16,
    content_type: Option<&str>,
    body: &str,
    parsed: Option<Json>,
) -> (r: Result<Fetched, ClientError>)
    ensures
        !is_success(status) ==> (r matches Err(ClientError::Http { status: s, body: b }) && s
            == status && b@ == body@),
        is_success(status) ==> match content_type {
            Some(ct) if !is_json_type(ct@) => r matches Err(
                ClientError::UnexpectedContentType { content_type: c },
            ) && c@ == ct@,
            _ => match parsed {
                None => r matches Err(ClientError::Decode { .. }),
                Some(j) => (r is Ok <==> payload_fits(p, j)) && match r {
                    Ok(f) => fetched_from(p, f, j),
                    Err(e) => e is Decode,
                },
            },
        },
{
    match check_json_response(status, content_type, body) {
        Err(e) => Err(e),
        Ok(()) => match parsed {
            None => Err(crate::decode::shape_error("body")),
            Some(j) => decode_payload(p, j),
        },
    }
}

} // verus!
