use vstd::prelude::*;

use crate::decode::{
    opt_decimal_fits, opt_decimal_member, opt_decimal_of, opt_i32_member, opt_i64_member,
    opt_int_fits, opt_int_of, opt_link_map_fits, opt_link_map_member, opt_link_map_of,
    opt_text_fits, opt_text_list_fits, opt_text_list_member, opt_text_list_of, opt_text_member,
    opt_text_of, shape_error, text_member, text_of, widen_i32, widen_i64, FromJson, LinkMap,
};
use crate::error::ClientError;
use crate::json::{is_missing, member, take_field, Json, Members};

verus! {

/// A chromosome.
#[derive(Debug, PartialEq)]
pub struct Chromosome {
    pub chromosome: String,
    pub links: Option<LinkMap>,
}

/// A study, by accession.
#[derive(Debug, PartialEq)]
pub struct Study {
    pub study_accession: String,
    pub links: Option<LinkMap>,
}

/// A trait, by id.
#[derive(Debug, PartialEq)]
pub struct Trait {
    pub trait_name: String,
    pub links: Option<LinkMap>,
}

/// A downloadable file of summary statistics. Where `download_url` is
/// present it is the address to fetch.
#[derive(Debug, PartialEq)]
pub struct SummaryStatsFile {
    pub study_accession: String,
    pub trait_id: Option<String>,
    pub file_path: String,
    pub file_size: Option<i64>,
    pub file_type: Option<String>,
    pub download_url: Option<String>,
    pub links: Option<LinkMap>,
}

/// One variant-study-trait association. Every field may be absent, depending
/// on what the service reveals. Non-integer numbers are held as decimal text.
#[derive(Debug, PartialEq)]
pub struct Association {
    pub variant_id: Option<String>,
    pub chromosome: Option<i32>,
    pub base_pair_location: Option<i64>,
    pub study_accession: Option<String>,
    pub trait_ids: Option<Vec<String>>,
    pub p_value: Option<String>,
    pub code: Option<i32>,
    pub effect_allele: Option<String>,
    pub other_allele: Option<String>,
    pub effect_allele_frequency: Option<String>,
    pub odds_ratio: Option<String>,
    pub ci_lower: Option<String>,
    pub ci_upper: Option<String>,
    pub beta: Option<String>,
    pub se: Option<String>,
    /// Hyperlinks, passed through as they came.
    pub links: Option<Members>,
}

/// Whether an optional member holding raw JSON members decodes: missing, or
/// an object.
pub open spec fn opt_members_fits(v: Option<Json>) -> bool {
    is_missing(v) || v matches Some(Json::Object(_))
}

/// `r` is the members of an optional object member, as they came.
pub open spec fn opt_members_of(v: Option<Json>, r: Option<Members>) -> bool {
    match r {
        None => is_missing(v),
        Some(ms) => v == Some(Json::Object(ms)),
    }
}

/// Takes an optional object member out of `ms`, as it is.
pub fn take_opt_members(ms: &mut Members, key: &str) -> (r: Result<Option<Members>, ClientError>)
    ensures
        r is Ok <==> opt_members_fits(crate::json::field(old(ms)@, key@)),
        match r {
            Ok(m) => opt_members_of(crate::json::field(old(ms)@, key@), m),
            Err(e) => e is Decode,
        },
        forall|k: Seq<char>|
            k != key@ ==> crate::json::field(final(ms)@, k) == crate::json::field(old(ms)@, k),
{
    match take_field(ms, key) {
        None => Ok(None),
        Some(Json::Null) => Ok(None),
        Some(Json::Object(inner)) => Ok(Some(inner)),
        Some(_) => Err(shape_error(key)),
    }
}

impl FromJson for Chromosome {
    open spec fn fits(j: Json) -> bool {
        &&& j is Object
        &&& member(j, "chromosome"@) matches Some(Json::Str(_))
        &&& opt_link_map_fits(member(j, "_links"@))
    }

    open spec fn decoded_from(&self, j: Json) -> bool {
        &&& j is Object
        &&& text_of(member(j, "chromosome"@), self.chromosome)
        &&& opt_link_map_of(member(j, "_links"@), self.links)
    }

    fn from_json(j: Json) -> (r: Result<Self, ClientError>) {
        match j {
            Json::Object(ms) => {
                let chromosome = match text_member(&ms, "chromosome") {
                    Ok(t) => t,
                    Err(e) => return Err(e),
                };
                let links = match opt_link_map_member(&ms, "_links") {
                    Ok(l) => l,
                    Err(e) => return Err(e),
                };
                Ok(Chromosome { chromosome, links })
            },
            _ => Err(shape_error("chromosome")),
        }
    }
}

impl FromJson for Study {
    open spec fn fits(j: Json) -> bool {
        &&& j is Object
        &&& member(j, "study_accession"@) matches Some(Json::Str(_))
        &&& opt_link_map_fits(member(j, "_links"@))
    }

    open spec fn decoded_from(&self, j: Json) -> bool {
        &&& j is Object
        &&& text_of(member(j, "study_accession"@), self.study_accession)
        &&& opt_link_map_of(member(j, "_links"@), self.links)
    }

    fn from_json(j: Json) -> (r: Result<Self, ClientError>) {
        match j {
            Json::Object(ms) => {
                let study_accession = match text_member(&ms, "study_accession") {
                    Ok(t) => t,
                    Err(e) => return Err(e),
                };
                let links = match opt_link_map_member(&ms, "_links") {
                    Ok(l) => l,
                    Err(e) => return Err(e),
                };
                Ok(Study { study_accession, links })
            },
            _ => Err(shape_error("study")),
        }
    }
}

impl FromJson for Trait {
    open spec fn fits(j: Json) -> bool {
        &&& j is Object
        &&& member(j, "trait"@) matches Some(Json::Str(_))
        &&& opt_link_map_fits(member(j, "_links"@))
    }

    open spec fn decoded_from(&self, j: Json) -> bool {
        &&& j is Object
        &&& text_of(member(j, "trait"@), self.trait_name)
        &&& opt_link_map_of(member(j, "_links"@), self.links)
    }

    fn from_json(j: Json) -> (r: Result<Self, ClientError>) {
        match j {
            Json::Object(ms) => {
                let trait_name = match text_member(&ms, "trait") {
                    Ok(t) => t,
                    Err(e) => return Err(e),
                };
                let links = match opt_link_map_member(&ms, "_links") {
                    Ok(l) => l,
                    Err(e) => return Err(e),
                };
                Ok(Trait { trait_name, links })
            },
            _ => Err(shape_error("trait")),
        }
    }
}

impl FromJson for SummaryStatsFile {
    open spec fn fits(j: Json) -> bool {
        &&& j is Object
        &&& member(j, "study_accession"@) matches Some(Json::Str(_))
        &&& opt_text_fits(member(j, "trait_id"@))
        &&& member(j, "file_path"@) matches Some(Json::Str(_))
        &&& opt_int_fits(member(j, "file_size"@), i64::MIN as int, i64::MAX as int)
        &&& opt_text_fits(member(j, "file_type"@))
        &&& opt_text_fits(member(j, "download_url"@))
        &&& opt_link_map_fits(member(j, "_links"@))
    }

    open spec fn decoded_from(&self, j: Json) -> bool {
        &&& j is Object
        &&& text_of(member(j, "study_accession"@), self.study_accession)
        &&& opt_text_of(member(j, "trait_id"@), self.trait_id)
        &&& text_of(member(j, "file_path"@), self.file_path)
        &&& opt_int_of(member(j, "file_size"@), widen_i64(self.file_size))
        &&& opt_text_of(member(j, "file_type"@), self.file_type)
        &&& opt_text_of(member(j, "download_url"@), self.download_url)
        &&& opt_link_map_of(member(j, "_links"@), self.links)
    }

    fn from_json(j: Json) -> (r: Result<Self, ClientError>) {
        match j {
            Json::Object(ms) => {
                let study_accession = match text_member(&ms, "study_accession") {
                    Ok(t) => t,
                    Err(e) => return Err(e),
                };
                let trait_id = match opt_text_member(&ms, "trait_id") {
                    Ok(t) => t,
                    Err(e) => return Err(e),
                };
                let file_path = match text_member(&ms, "file_path") {
                    Ok(t) => t,
                    Err(e) => return Err(e),
                };
                let file_size = match opt_i64_member(&ms, "file_size") {
                    Ok(n) => n,
                    Err(e) => return Err(e),
                };
                let file_type = match opt_text_member(&ms, "file_type") {
                    Ok(t) => t,
                    Err(e) => return Err(e),
                };
                let download_url = match opt_text_member(&ms, "download_url") {
                    Ok(t) => t,
                    Err(e) => return Err(e),
                };
                let links = match opt_link_map_member(&ms, "_links") {
                    Ok(l) => l,
                    Err(e) => return Err(e),
                };
                Ok(
                    SummaryStatsFile {
                        study_accession,
                        trait_id,
                        file_path,
                        file_size,
                        file_type,
                        download_url,
                        links,
                    },
                )
            },
            _ => Err(shape_error("summary statistics file")),
        }
    }
}

impl FromJson for Association {
    open spec fn fits(j: Json) -> bool {
        &&& j is Object
        &&& opt_text_fits(member(j, "variant_id"@))
        &&& opt_int_fits(member(j, "chromosome"@), i32::MIN as int, i32::MAX as int)
        &&& opt_int_fits(member(j, "base_pair_location"@), i64::MIN as int, i64::MAX as int)
        &&& opt_text_fits(member(j, "study_accession"@))
        &&& opt_text_list_fits(member(j, "trait"@))
        &&& opt_decimal_fits(member(j, "p_value"@))
        &&& opt_int_fits(member(j, "code"@), i32::MIN as int, i32::MAX as int)
        &&& opt_text_fits(member(j, "effect_allele"@))
        &&& opt_text_fits(member(j, "other_allele"@))
        &&& opt_decimal_fits(member(j, "effect_allele_frequency"@))
        &&& opt_decimal_fits(member(j, "odds_ratio"@))
        &&& opt_decimal_fits(member(j, "ci_lower"@))
        &&& opt_decimal_fits(member(j, "ci_upper"@))
        &&& opt_decimal_fits(member(j, "beta"@))
        &&& opt_decimal_fits(member(j, "se"@))
        &&& opt_members_fits(member(j, "_links"@))
    }

    open spec fn decoded_from(&self, j: Json) -> bool {
        &&& j is Object
        &&& opt_text_of(member(j, "variant_id"@), self.variant_id)
        &&& opt_int_of(member(j, "chromosome"@), widen_i32(self.chromosome))
        &&& opt_int_of(member(j, "base_pair_location"@), widen_i64(self.base_pair_location))
        &&& opt_text_of(member(j, "study_accession"@), self.study_accession)
        &&& opt_text_list_of(member(j, "trait"@), self.trait_ids)
        &&& opt_decimal_of(member(j, "p_value"@), self.p_value)
        &&& opt_int_of(member(j, "code"@), widen_i32(self.code))
        &&& opt_text_of(member(j, "effect_allele"@), self.effect_allele)
        &&& opt_text_of(member(j, "other_allele"@), self.other_allele)
        &&& opt_decimal_of(member(j, "effect_allele_frequency"@), self.effect_allele_frequency)
        &&& opt_decimal_of(member(j, "odds_ratio"@), self.odds_ratio)
        &&& opt_decimal_of(member(j, "ci_lower"@), self.ci_lower)
        &&& opt_decimal_of(member(j, "ci_upper"@), self.ci_upper)
        &&& opt_decimal_of(member(j, "beta"@), self.beta)
        &&& opt_decimal_of(member(j, "se"@), self.se)
        &&& opt_members_of(member(j, "_links"@), self.links)
    }

    #[verifier::rlimit(50)]
    fn from_json(j: Json) -> (r: Result<Self, ClientError>) {
        match j {
            Json::Object(mut ms) => {
                let variant_id = match opt_text_member(&ms, "variant_id") {
                    Ok(t) => t,
                    Err(e) => return Err(e),
                };
                let chromosome = match opt_i32_member(&ms, "chromosome") {
                    Ok(n) => n,
                    Err(e) => return Err(e),
                };
                let base_pair_location = match opt_i64_member(&ms, "base_pair_location") {
                    Ok(n) => n,
                    Err(e) => return Err(e),
                };
                let study_accession = match opt_text_member(&ms, "study_accession") {
                    Ok(t) => t,
                    Err(e) => return Err(e),
                };
                let trait_ids = match opt_text_list_member(&ms, "trait") {
                    Ok(l) => l,
                    Err(e) => return Err(e),
                };
                let p_value = match opt_decimal_member(&ms, "p_value") {
                    Ok(t) => t,
                    Err(e) => return Err(e),
                };
                let code = match opt_i32_member(&ms, "code") {
                    Ok(n) => n,
                    Err(e) => return Err(e),
                };
                let effect_allele = match opt_text_member(&ms, "effect_allele") {
                    Ok(t) => t,
                    Err(e) => return Err(e),
                };
                let other_allele = match opt_text_member(&ms, "other_allele") {
                    Ok(t) => t,
                    Err(e) => return Err(e),
                };
                let effect_allele_frequency = match opt_decimal_member(
                    &ms,
                    "effect_allele_frequency",
                ) {
                    Ok(t) => t,
                    Err(e) => return Err(e),
                };
                let odds_ratio = match opt_decimal_member(&ms, "odds_ratio") {
                    Ok(t) => t,
                    Err(e) => return Err(e),
                };
                let ci_lower = match opt_decimal_member(&ms, "ci_lower") {
                    Ok(t) => t,
                    Err(e) => return Err(e),
                };
                let ci_upper = match opt_decimal_member(&ms, "ci_upper") {
                    Ok(t) => t,
                    Err(e) => return Err(e),
                };
                let beta = match opt_decimal_member(&ms, "beta") {
                    Ok(t) => t,
                    Err(e) => return Err(e),
                };
                let se = match opt_decimal_member(&ms, "se") {
                    Ok(t) => t,
                    Err(e) => return Err(e),
                };
                let links = match take_opt_members(&mut ms, "_links") {
                    Ok(l) => l,
                    Err(e) => return Err(e),
                };
                Ok(
                    Association {
                        variant_id,
                        chromosome,
                        base_pair_location,
                        study_accession,
                        trait_ids,
                        p_value,
                        code,
                        effect_allele,
                        other_allele,
                        effect_allele_frequency,
                        odds_ratio,
                        ci_lower,
                        ci_upper,
                        beta,
                        se,
                        links,
                    },
                )
            },
            _ => Err(shape_error("association")),
        }
    }
}

} // verus!
