use vstd::prelude::*;

use crate::error::ClientError;
use crate::filter::{filter_params, GwasFilter, Params};
use crate::request::{build_url, built_from, RequestUrl};
use crate::text::str_eq;

verus! {

/// The service's address when no other is given.
pub const DEFAULT_BASE_URL: &'static str = "https://www.ebi.ac.uk/gwas/summary-statistics/api";

/// One endpoint of the service, with the ids that its path carries.
#[derive(Debug, PartialEq)]
pub enum Route {
    /// All associations.
    Associations,
    /// Associations of a variant.
    VariantAssociations { variant_id: String },
    /// All chromosomes.
    Chromosomes,
    /// One chromosome.
    Chromosome { chromosome: String },
    /// Associations on a chromosome.
    ChromosomeAssociations { chromosome: String },
    /// Associations of a variant on a chromosome.
    ChromosomeVariantAssociations { chromosome: String, variant_id: String },
    /// All studies.
    Studies,
    /// One study.
    Study { study_accession: String },
    /// Associations of a study.
    StudyAssociations { study_accession: String },
    /// All traits.
    Traits,
    /// One trait.
    Trait { trait_id: String },
    /// Associations of a trait.
    TraitAssociations { trait_id: String },
    /// Studies of a trait.
    TraitStudies { trait_id: String },
    /// One study of a trait.
    TraitStudy { trait_id: String, study_accession: String },
    /// Associations of a study of a trait.
    TraitStudyAssociations { trait_id: String, study_accession: String },
    /// Summary-statistics files of a study.
    StudyFiles { study_accession: String },
    /// Summary-statistics files of a trait.
    TraitFiles { trait_id: String },
    /// Summary-statistics files of a study of a trait.
    TraitStudyFiles { trait_id: String, study_accession: String },
}

/// What a route's response body decodes to.
#[derive(Debug, Clone, Copy, PartialEq, Eq)]
pub enum Payload {
    /// A page of associations keyed by id.
    AssociationsPage,
    /// A page of chromosomes.
    ChromosomesPage,
    /// A bare chromosome.
    Chromosome,
    /// A page of grouped studies.
    StudyGroupsPage,
    /// A page of studies.
    StudiesPage,
    /// A bare study.
    Study,
    /// A page of traits.
    TraitsPage,
    /// A bare trait.
    Trait,
    /// A page of summary-statistics files.
    FilesPage,
}

/// The path of a route, below the service's base address.
pub open spec fn route_path(r: Route) -> Seq<char> {
    match r {
        Route::Associations => "/associations"@,
        Route::VariantAssociations { variant_id } => "/associations/"@ + variant_id@,
        Route::Chromosomes => "/chromosomes"@,
        Route::Chromosome { chromosome } => "/chromosomes/"@ + chromosome@,
        Route::ChromosomeAssociations { chromosome } => "/chromosomes/"@ + chromosome@
            + "/associations"@,
        Route::ChromosomeVariantAssociations { chromosome, variant_id } => "/chromosomes/"@
            + chromosome@ + "/associations/"@ + variant_id@,
        Route::Studies => "/studies"@,
        Route::Study { study_accession } => "/studies/"@ + study_accession@,
        Route::StudyAssociations { study_accession } => "/studies/"@ + study_accession@
            + "/associations"@,
        Route::Traits => "/traits"@,
        Route::Trait { trait_id } => "/traits/"@ + trait_id@,
        Route::TraitAssociations { trait_id } => "/traits/"@ + trait_id@ + "/associations"@,
        Route::TraitStudies { trait_id } => "/traits/"@ + trait_id@ + "/studies"@,
        Route::TraitStudy { trait_id, study_accession } => "/traits/"@ + trait_id@ + "/studies/"@
            + study_accession@,
        Route::TraitStudyAssociations { trait_id, study_accession } => "/traits/"@ + trait_id@
            + "/studies/"@ + study_accession@ + "/associations"@,
        Route::StudyFiles { study_accession } => "/studies/"@ + study_accession@
            + "/summary-statistics"@,
        Route::TraitFiles { trait_id } => "/traits/"@ + trait_id@ + "/summary-statistics"@,
        Route::TraitStudyFiles { trait_id, study_accession } => "/traits/"@ + trait_id@
            + "/studies/"@ + study_accession@ + "/summary-statistics"@,
    }
}

/// Whether a route sends the caller's filter as its query. Single-entity
/// lookups, the chromosome listing and file listings send none.
pub open spec fn route_takes_filter(r: Route) -> bool {
    match r {
        Route::Associations => true,
        Route::VariantAssociations { .. } => true,
        Route::ChromosomeAssociations { .. } => true,
        Route::ChromosomeVariantAssociations { .. } => true,
        Route::Studies => true,
        Route::StudyAssociations { .. } => true,
        Route::Traits => true,
        Route::TraitAssociations { .. } => true,
        Route::TraitStudies { .. } => true,
        Route::TraitStudyAssociations { .. } => true,
        _ => false,
    }
}

/// What the body of a route's response decodes to.
pub open spec fn route_payload(r: Route) -> Payload {
    match r {
        Route::Chromosomes => Payload::ChromosomesPage,
        Route::Chromosome { .. } => Payload::Chromosome,
        Route::Studies => Payload::StudyGroupsPage,
        Route::Study { .. } => Payload::Study,
        Route::TraitStudy { .. } => Payload::Study,
        Route::Traits => Payload::TraitsPage,
        Route::Trait { .. } => Payload::Trait,
        Route::TraitStudies { .. } => Payload::StudiesPage,
        Route::StudyFiles { .. } => Payload::FilesPage,
        Route::TraitFiles { .. } => Payload::FilesPage,
        Route::TraitStudyFiles { .. } => Payload::FilesPage,
        _ => Payload::AssociationsPage,
    }
}

/// The query that a route sends for `filter`.
pub open spec fn route_params(r: Route, filter: GwasFilter) -> Seq<(Seq<char>, Seq<char>)> {
    if route_takes_filter(r) {
        filter_params(filter)
    } else {
        Seq::empty()
    }
}

/// `a` followed by `b`.
fn cat2(a: &str, b: &str) -> (r: String)
    ensures
        r@ == a@ + b@,
{
    let mut s = String::from_str(a);
    s.append(b);
    s
}

/// `a`, `b`, `c` in turn.
fn cat3(a: &str, b: &str, c: &str) -> (r: String)
    ensures
        r@ == a@ + b@ + c@,
{
    let mut s = cat2(a, b);
    s.append(c);
    s
}

/// `a`, `b`, `c`, `d` in turn.
fn cat4(a: &str, b: &str, c: &str, d: &str) -> (r: String)
    ensures
        r@ == a@ + b@ + c@ + d@,
{
    let mut s = cat3(a, b, c);
    s.append(d);
    s
}

/// `a`, `b`, `c`, `d`, `e` in turn.
fn cat5(a: &str, b: &str, c: &str, d: &str, e: &str) -> (r: String)
    ensures
        r@ == a@ + b@ + c@ + d@ + e@,
{
    let mut s = cat4(a, b, c, d);
    s.append(e);
    s
}

impl Route {
    /// The path of this route below the base address.
    pub fn path(&self) -> (r: String)
        ensures
            r@ == route_path(*self),
    {
        match self {
            Route::Associations => String::from_str("/associations"),
            Route::VariantAssociations { variant_id } => cat2("/associations/", variant_id.as_str()),
            Route::Chromosomes => String::from_str("/chromosomes"),
            Route::Chromosome { chromosome } => cat2("/chromosomes/", chromosome.as_str()),
            Route::ChromosomeAssociations { chromosome } => cat3(
                "/chromosomes/",
                chromosome.as_str(),
                "/associations",
            ),
            Route::ChromosomeVariantAssociations { chromosome, variant_id } => cat4(
                "/chromosomes/",
                chromosome.as_str(),
                "/associations/",
                variant_id.as_str(),
            ),
            Route::Studies => String::from_str("/studies"),
            Route::Study { study_accession } => cat2("/studies/", study_accession.as_str()),
            Route::StudyAssociations { study_accession } => cat3(
                "/studies/",
                study_accession.as_str(),
                "/associations",
            ),
            Route::Traits => String::from_str("/traits"),
            Route::Trait { trait_id } => cat2("/traits/", trait_id.as_str()),
            Route::TraitAssociations { trait_id } => cat3(
                "/traits/",
                trait_id.as_str(),
                "/associations",
            ),
            Route::TraitStudies { trait_id } => cat3("/traits/", trait_id.as_str(), "/studies"),
            Route::TraitStudy { trait_id, study_accession } => cat4(
                "/traits/",
                trait_id.as_str(),
                "/studies/",
                study_accession.as_str(),
            ),
            Route::TraitStudyAssociations { trait_id, study_accession } => cat5(
                "/traits/",
                trait_id.as_str(),
                "/studies/",
                study_accession.as_str(),
                "/associations",
            ),
            Route::StudyFiles { study_accession } => cat3(
                "/studies/",
                study_accession.as_str(),
                "/summary-statistics",
            ),
            Route::TraitFiles { trait_id } => cat3(
                "/traits/",
                trait_id.as_str(),
                "/summary-statistics",
            ),
            Route::TraitStudyFiles { trait_id, study_accession } => cat5(
                "/traits/",
                trait_id.as_str(),
                "/studies/",
                study_accession.as_str(),
                "/summary-statistics",
            ),
        }
    }

    /// Whether this route sends the caller's filter as its query.
    pub fn takes_filter(&self) -> (r: bool)
        ensures
            r == route_takes_filter(*self),
    {
        match self {
            Route::Associations => true,
            Route::VariantAssociations { .. } => true,
            Route::ChromosomeAssociations { .. } => true,
            Route::ChromosomeVariantAssociations { .. } => true,
            Route::Studies => true,
            Route::StudyAssociations { .. } => true,
            Route::Traits => true,
            Route::TraitAssociations { .. } => true,
            Route::TraitStudies { .. } => true,
            Route::TraitStudyAssociations { .. } => true,
            _ => false,
        }
    }

    /// What the body of this route's response decodes to.
    pub fn payload(&self) -> (r: Payload)
        ensures
            r == route_payload(*self),
    {
        match self {
            Route::Chromosomes => Payload::ChromosomesPage,
            Route::Chromosome { .. } => Payload::Chromosome,
            Route::Studies => Payload::StudyGroupsPage,
            Route::Study { .. } => Payload::Study,
            Route::TraitStudy { .. } => Payload::Study,
            Route::Traits => Payload::TraitsPage,
            Route::Trait { .. } => Payload::Trait,
            Route::TraitStudies { .. } => Payload::StudiesPage,
            Route::StudyFiles { .. } => Payload::FilesPage,
            Route::TraitFiles { .. } => Payload::FilesPage,
            Route::TraitStudyFiles { .. } => Payload::FilesPage,
            _ => Payload::AssociationsPage,
        }
    }
}

/// The request address of `route` under `base`, with the query that the
/// route sends for `filter`; fails with `MalformedUrl` as `build_url` does.
pub fn request_url(base: &str, route: &Route, filter: &GwasFilter) -> (r: Result<
    RequestUrl,
    ClientError,
>)
    ensures
        built_from(r, base@, route_path(*route), route_params(*route, *filter)),
{
    let path = route.path();
    let params: Params = if route.takes_filter() {
        filter.to_params()
    } else {
        let empty: Params = Vec::new();
        assert(empty.deep_view() =~= Seq::<(Seq<char>, Seq<char>)>::empty());
        empty
    };
    build_url(base, path.as_str(), params)
}

/// Whether `r` is the route of an entity lookup of kind `kind`, with `id` or
/// without: the single entity when an id is given, else the listing. Kinds are
/// `chromosomes`, `studies` and `traits`, singular or plural; any other kind
/// is `UnsupportedEntityKind`.
pub open spec fn entity_lookup_of(
    kind: Seq<char>,
    id: Option<Seq<char>>,
    r: Result<Route, ClientError>,
) -> bool {
    if kind == "chromosomes"@ || kind == "chromosome"@ {
        match id {
            Some(i) => r matches Ok(Route::Chromosome { chromosome }) && chromosome@ == i,
            None => r matches Ok(Route::Chromosomes),
        }
    } else if kind == "studies"@ || kind == "study"@ {
        match id {
            Some(i) => r matches Ok(Route::Study { study_accession }) && study_accession@ == i,
            None => r matches Ok(Route::Studies),
        }
    } else if kind == "traits"@ || kind == "trait"@ {
        match id {
            Some(i) => r matches Ok(Route::Trait { trait_id }) && trait_id@ == i,
            None => r matches Ok(Route::Traits),
        }
    } else {
        r matches Err(ClientError::UnsupportedEntityKind { kind: k }) && k@ == kind
    }
}

/// Whether `r` is the route of the associations scoped by `kind` and `id`:
/// all associations when neither is given; those of a variant, chromosome,
/// study or trait when both are; `InvalidScope` otherwise.
pub open spec fn scoped_associations_of(
    kind: Option<Seq<char>>,
    id: Option<Seq<char>>,
    r: Result<Route, ClientError>,
) -> bool {
    match (kind, id) {
        (None, None) => r matches Ok(Route::Associations),
        (Some(k), Some(i)) => if k == "variant"@ {
            r matches Ok(Route::VariantAssociations { variant_id }) && variant_id@ == i
        } else if k == "chromosome"@ {
            r matches Ok(Route::ChromosomeAssociations { chromosome }) && chromosome@ == i
        } else if k == "study"@ {
            r matches Ok(Route::StudyAssociations { study_accession }) && study_accession@ == i
        } else if k == "trait"@ {
            r matches Ok(Route::TraitAssociations { trait_id }) && trait_id@ == i
        } else {
            r matches Err(ClientError::InvalidScope)
        },
        _ => r matches Err(ClientError::InvalidScope),
    }
}

/// Whether `r` is the route of the file listing of `kind` and `id`, with an
/// optional second id: the files of a study, of a trait, or of a study of a
/// trait; `InvalidFileScope` for any other combination.
pub open spec fn file_listing_of(
    kind: Seq<char>,
    id: Seq<char>,
    secondary: Option<Seq<char>>,
    r: Result<Route, ClientError>,
) -> bool {
    if kind == "study"@ {
        match secondary {
            None => r matches Ok(Route::StudyFiles { study_accession }) && study_accession@ == id,
            Some(_) => r matches Err(ClientError::InvalidFileScope),
        }
    } else if kind == "trait"@ {
        match secondary {
            None => r matches Ok(Route::TraitFiles { trait_id }) && trait_id@ == id,
            Some(s) => r matches Ok(Route::TraitStudyFiles { trait_id, study_accession })
                && trait_id@ == id && study_accession@ == s,
        }
    } else {
        r matches Err(ClientError::InvalidFileScope)
    }
}

/// The view of an optional string.
pub open spec fn opt_view(o: Option<&str>) -> Option<Seq<char>> {
    match o {
        Some(s) => Some(s@),
        None => None,
    }
}

/// Routes an entity lookup: the entity `id` of `kind`, or the listing of
/// `kind` when no id is given.
pub fn entity_lookup(kind: &str, id: Option<&str>) -> (r: Result<Route, ClientError>)
    ensures
        entity_lookup_of(kind@, opt_view(id), r),
{
    if str_eq(kind, "chromosomes") || str_eq(kind, "chromosome") {
        match id {
            Some(i) => Ok(Route::Chromosome { chromosome: String::from_str(i) }),
            None => Ok(Route::Chromosomes),
        }
    } else if str_eq(kind, "studies") || str_eq(kind, "study") {
        match id {
            Some(i) => Ok(Route::Study { study_accession: String::from_str(i) }),
            None => Ok(Route::Studies),
        }
    } else if str_eq(kind, "traits") || str_eq(kind, "trait") {
        match id {
            Some(i) => Ok(Route::Trait { trait_id: String::from_str(i) }),
            None => Ok(Route::Traits),
        }
    } else {
        Err(ClientError::UnsupportedEntityKind { kind: String::from_str(kind) })
    }
}

/// Routes a request for associations scoped by an optional kind and id.
pub fn scoped_associations(kind: Option<&str>, id: Option<&str>) -> (r: Result<Route, ClientError>)
    ensures
        scoped_associations_of(opt_view(kind), opt_view(id), r),
{
    match (kind, id) {
        (None, None) => Ok(Route::Associations),
        (Some(k), Some(i)) => {
            if str_eq(k, "variant") {
                Ok(Route::VariantAssociations { variant_id: String::from_str(i) })
            } else if str_eq(k, "chromosome") {
                Ok(Route::ChromosomeAssociations { chromosome: String::from_str(i) })
            } else if str_eq(k, "study") {
                Ok(Route::StudyAssociations { study_accession: String::from_str(i) })
            } else if str_eq(k, "trait") {
                Ok(Route::TraitAssociations { trait_id: String::from_str(i) })
            } else {
                Err(ClientError::InvalidScope)
            }
        },
        _ => Err(ClientError::InvalidScope),
    }
}

/// Routes a file listing for a study, a trait, or a study of a trait.
pub fn file_listing(kind: &str, id: &str, secondary: Option<&str>) -> (r: Result<
    Route,
    ClientError,
>)
    ensures
        file_listing_of(kind@, id@, opt_view(secondary), r),
{
    if str_eq(kind, "study") {
        match secondary {
            None => Ok(Route::StudyFiles { study_accession: String::from_str(id) }),
            Some(_) => Err(ClientError::InvalidFileScope),
        }
    } else if str_eq(kind, "trait") {
        match secondary {
            None => Ok(Route::TraitFiles { trait_id: String::from_str(id) }),
            Some(s) => Ok(
                Route::TraitStudyFiles {
                    trait_id: String::from_str(id),
                    study_accession: String::from_str(s),
                },
            ),
        }
    } else {
        Err(ClientError::InvalidFileScope)
    }
}

} // verus!
