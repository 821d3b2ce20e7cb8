//! The parameters of a release-information query and the path it is sent to.
use crate::text::{decimal, push_decimal};
use crate::types::{
    AdoptiumJvmImpl, CLib, HeapSize, ImageType, Project, ReleaseType, Sort, SortBuilder,
    SortMethod, SortOrder, SystemProperties, Vendor, WithSort,
};
use vstd::prelude::*;

verus! {

/// The filters of a release-information query.
#[derive(Clone, Copy, Debug, PartialEq, Eq, Structural)]
pub struct ReleaseInformationQueryParams {
    pub local_system: Option<SystemProperties>,
    pub sort: Option<Sort>,
    pub heap_size: Option<HeapSize>,
    pub image_type: Option<ImageType>,
    pub jvm_impl: Option<AdoptiumJvmImpl>,
    pub vendor: Option<Vendor>,
    pub project: Option<Project>,
    pub c_lib: Option<CLib>,
}

/// Query filters with nothing set.
pub open spec fn empty_query() -> ReleaseInformationQueryParams {
    ReleaseInformationQueryParams {
        local_system: None,
        sort: None,
        heap_size: None,
        image_type: None,
        jvm_impl: None,
        vendor: None,
        project: None,
        c_lib: None,
    }
}

impl Default for ReleaseInformationQueryParams {
    fn default() -> (r: ReleaseInformationQueryParams)
        ensures
            r == empty_query(),
    {
        ReleaseInformationQueryParams {
            local_system: None,
            sort: None,
            heap_size: None,
            image_type: None,
            jvm_impl: None,
            vendor: None,
            project: None,
            c_lib: None,
        }
    }
}

/// Builds query filters; a filter left unset is absent.
#[derive(Clone, Copy, Debug, PartialEq, Eq, Structural)]
pub struct ReleaseInformationQueryParamsBuilder {
    pub params: ReleaseInformationQueryParams,
}

impl Default for ReleaseInformationQueryParamsBuilder {
    fn default() -> (r: ReleaseInformationQueryParamsBuilder)
        ensures
            r.params == empty_query(),
    {
        ReleaseInformationQueryParamsBuilder { params: ReleaseInformationQueryParams::default() }
    }
}

impl ReleaseInformationQueryParamsBuilder {
    pub fn local_system(self, v: Option<SystemProperties>) -> (r: Self)
        ensures
            r.params == (ReleaseInformationQueryParams { local_system: v, ..self.params }),
    {
        ReleaseInformationQueryParamsBuilder {
            params: ReleaseInformationQueryParams { local_system: v, ..self.params },
        }
    }

    pub fn heap_size(self, v: Option<HeapSize>) -> (r: Self)
        ensures
            r.params == (ReleaseInformationQueryParams { heap_size: v, ..self.params }),
    {
        ReleaseInformationQueryParamsBuilder {
            params: ReleaseInformationQueryParams { heap_size: v, ..self.params },
        }
    }

    pub fn image_type(self, v: Option<ImageType>) -> (r: Self)
        ensures
            r.params == (ReleaseInformationQueryParams { image_type: v, ..self.params }),
    {
        ReleaseInformationQueryParamsBuilder {
            params: ReleaseInformationQueryParams { image_type: v, ..self.params },
        }
    }

    pub fn jvm_impl(self, v: Option<AdoptiumJvmImpl>) -> (r: Self)
        ensures
            r.params == (ReleaseInformationQueryParams { jvm_impl: v, ..self.params }),
    {
        ReleaseInformationQueryParamsBuilder {
            params: ReleaseInformationQueryParams { jvm_impl: v, ..self.params },
        }
    }

    pub fn vendor(self, v: Option<Vendor>) -> (r: Self)
        ensures
            r.params == (ReleaseInformationQueryParams { vendor: v, ..self.params }),
    {
        ReleaseInformationQueryParamsBuilder {
            params: ReleaseInformationQueryParams { vendor: v, ..self.params },
        }
    }

    pub fn project(self, v: Option<Project>) -> (r: Self)
        ensures
            r.params == (ReleaseInformationQueryParams { project: v, ..self.params }),
    {
        ReleaseInformationQueryParamsBuilder {
            params: ReleaseInformationQueryParams { project: v, ..self.params },
        }
    }

    pub fn c_lib(self, v: Option<CLib>) -> (r: Self)
        ensures
            r.params == (ReleaseInformationQueryParams { c_lib: v, ..self.params }),
    {
        ReleaseInformationQueryParamsBuilder {
            params: ReleaseInformationQueryParams { c_lib: v, ..self.params },
        }
    }

    /// The filters set so far.
    pub fn build(&self) -> (r: ReleaseInformationQueryParams)
        ensures
            r == self.params,
    {
        self.params
    }
}

impl WithSort for ReleaseInformationQueryParamsBuilder {
    open spec fn sorted(self, sort: Sort) -> Self {
        ReleaseInformationQueryParamsBuilder {
            params: ReleaseInformationQueryParams { sort: Some(sort), ..self.params },
        }
    }

    fn set_sort(self, sort: Sort) -> (r: Self) {
        ReleaseInformationQueryParamsBuilder {
            params: ReleaseInformationQueryParams { sort: Some(sort), ..self.params },
        }
    }
}

/// A release-information query: a feature version, a release type and filters.
#[derive(Clone, Copy, Debug, PartialEq, Eq, Structural)]
pub struct ReleaseInformationParams {
    pub feature_version: i64,
    pub release_type: ReleaseType,
    pub query_params: ReleaseInformationQueryParams,
}

/// The query for feature version 21, general availability, with no filters.
pub open spec fn default_params() -> ReleaseInformationParams {
    ReleaseInformationParams {
        feature_version: 21,
        release_type: ReleaseType::GeneralAvailability,
        query_params: empty_query(),
    }
}

impl Default for ReleaseInformationParams {
    fn default() -> (r: ReleaseInformationParams)
        ensures
            r == default_params(),
    {
        ReleaseInformationParams {
            feature_version: 21,
            release_type: ReleaseType::default(),
            query_params: ReleaseInformationQueryParams::default(),
        }
    }
}

impl From<i64> for ReleaseInformationParams {
    fn from(feature_version: i64) -> (r: ReleaseInformationParams) {
        ReleaseInformationParams { feature_version, ..ReleaseInformationParams::default() }
    }
}

impl vstd::std_specs::convert::FromSpecImpl<i64> for ReleaseInformationParams {
    open spec fn obeys_from_spec() -> bool {
        true
    }

    open spec fn from_spec(feature_version: i64) -> ReleaseInformationParams {
        ReleaseInformationParams { feature_version, ..default_params() }
    }
}

/// Builds a query; a field left unset takes its value from
/// `ReleaseInformationParams::default()`.
#[derive(Clone, Copy, Debug, PartialEq, Eq, Structural)]
pub struct ReleaseInformationParamsBuilder {
    pub feature_version: Option<i64>,
    pub release_type: Option<ReleaseType>,
    pub query_params: Option<ReleaseInformationQueryParams>,
}

impl Default for ReleaseInformationParamsBuilder {
    fn default() -> (r: ReleaseInformationParamsBuilder)
        ensures
            r == (ReleaseInformationParamsBuilder {
                feature_version: None,
                release_type: None,
                query_params: None,
            }),
    {
        ReleaseInformationParamsBuilder { feature_version: None, release_type: None, query_params: None }
    }
}

impl ReleaseInformationParamsBuilder {
    pub fn feature_version(self, v: i64) -> (r: Self)
        ensures
            r == (ReleaseInformationParamsBuilder { feature_version: Some(v), ..self }),
    {
        ReleaseInformationParamsBuilder { feature_version: Some(v), ..self }
    }

    pub fn release_type(self, v: ReleaseType) -> (r: Self)
        ensures
            r == (ReleaseInformationParamsBuilder { release_type: Some(v), ..self }),
    {
        ReleaseInformationParamsBuilder { release_type: Some(v), ..self }
    }

    pub fn query_params(self, v: ReleaseInformationQueryParams) -> (r: Self)
        ensures
            r == (ReleaseInformationParamsBuilder { query_params: Some(v), ..self }),
    {
        ReleaseInformationParamsBuilder { query_params: Some(v), ..self }
    }

    /// Sets the filters that `query_builder` describes.
    pub fn with_query_builder(self, query_builder: ReleaseInformationQueryParamsBuilder) -> (r: Self)
        ensures
            r == (ReleaseInformationParamsBuilder { query_params: Some(query_builder.params), ..self }),
    {
        self.query_params(query_builder.build())
    }

    /// The query that the builder describes.
    pub open spec fn build_spec(self) -> ReleaseInformationParams {
        ReleaseInformationParams {
            feature_version: match self.feature_version {
                Some(v) => v,
                None => 21,
            },
            release_type: match self.release_type {
                Some(v) => v,
                None => ReleaseType::GeneralAvailability,
            },
            query_params: match self.query_params {
                Some(v) => v,
                None => empty_query(),
            },
        }
    }

    /// Builds the query: each field set on the builder, else its default.
    pub fn build(&self) -> (r: ReleaseInformationParams)
        ensures
            r == self.build_spec(),
    {
        let d = ReleaseInformationParams::default();
        ReleaseInformationParams {
            feature_version: match self.feature_version {
                Some(v) => v,
                None => d.feature_version,
            },
            release_type: match self.release_type {
                Some(v) => v,
                None => d.release_type,
            },
            query_params: match self.query_params {
                Some(v) => v,
                None => d.query_params,
            },
        }
    }
}

/// The query for the single newest release: page 0 of size 1, newest first.
pub open spec fn newest_only_sort() -> Sort {
    Sort {
        sort_order: SortOrder::Descending,
        sort_method: SortMethod::Default,
        page: 0,
        page_size: 1,
    }
}

/// The query for the newest release of a feature version, release type,
/// image type and implementation on the given system.
pub open spec fn newest_release_query(
    feature_version: i64,
    release_type: ReleaseType,
    image_type: Option<ImageType>,
    jvm_impl: Option<AdoptiumJvmImpl>,
    system: SystemProperties,
) -> ReleaseInformationParams {
    ReleaseInformationParams {
        feature_version,
        release_type,
        query_params: ReleaseInformationQueryParams {
            local_system: Some(system),
            sort: Some(newest_only_sort()),
            image_type,
            jvm_impl,
            ..empty_query()
        },
    }
}

/// Builds the query for the single newest release that matches.
pub fn newest_release_request(
    feature_version: i64,
    release_type: ReleaseType,
    image_type: Option<ImageType>,
    jvm_impl: Option<AdoptiumJvmImpl>,
    system: SystemProperties,
) -> (r: ReleaseInformationParams)
    ensures
        r == newest_release_query(feature_version, release_type, image_type, jvm_impl, system),
{
    let sort = SortBuilder::default().sort_order(SortOrder::Descending).sort_method(
        SortMethod::Default,
    ).page(0).page_size(1);
    let query = ReleaseInformationQueryParamsBuilder::default().image_type(image_type).jvm_impl(
        jvm_impl,
    ).local_system(Some(system)).with_sort(sort);
    let r = ReleaseInformationParamsBuilder::default().feature_version(feature_version).release_type(
        release_type,
    ).with_query_builder(query).build();
    assert(r.query_params == newest_release_query(
        feature_version,
        release_type,
        image_type,
        jvm_impl,
        system,
    ).query_params);
    r
}

/// The path of a release-information query below the API root:
/// "assets/feature_releases/{feature_version}/{release_type}?{query}".
pub open spec fn release_path_spec(params: ReleaseInformationParams, query: Seq<char>) -> Seq<
    char,
> {
    "assets/feature_releases/"@ + decimal(params.feature_version as int) + seq!['/']
        + params.release_type.name_spec() + seq!['?'] + query
}

/// The path of a query below the API root; `query` is its encoded filters.
pub fn release_path(params: &ReleaseInformationParams, query: &str) -> (r: String)
    ensures
        r@ == release_path_spec(*params, query@),
{
    let mut s = String::from_str("assets/feature_releases/");
    push_decimal(&mut s, params.feature_version);
    s.append("/");
    s.append(params.release_type.as_str());
    s.append("?");
    s.append(query);
    proof {
        reveal_strlit("/");
        reveal_strlit("?");
    }
    assert(s@ =~= release_path_spec(*params, query@));
    s
}

/// The full URL of a path below the catalog's API root.
pub fn build_url(dest: &str) -> (r: String)
    ensures
        r@ == "https://api.adoptium.net/v3/"@ + dest@,
{
    let mut s = String::from_str("https://api.adoptium.net/v3/");
    s.append(dest);
    s
}

} // verus!
