//! Declarative project metadata and its manifest-element forms.
//!
//! A project's configuration file declares features, permissions, intent
//! filters and metadata entries in a loose form where most fields are
//! optional. Conversion into the strict manifest-element structures fills
//! in defaults and normalizes ordering; those conversions are the logic
//! of this module, each one specified through its `from_spec`.

use vstd::prelude::*;

use crate::ndk::AndroidTarget;

verus! {

/// A `uses-feature` manifest element.
#[derive(Clone, Debug)]
pub struct Feature {
    pub name: String,
    pub required: bool,
}

/// A `uses-permission` manifest element.
#[derive(Clone, Debug)]
pub struct Permission {
    pub name: String,
    pub max_sdk_version: Option<u32>,
}

/// One data clause of an intent filter.
#[derive(Clone, Debug)]
pub struct IntentFilterData {
    pub scheme: Option<String>,
    pub host: Option<String>,
    pub prefix: Option<String>,
}

/// An intent-filter manifest element.
#[derive(Clone, Debug)]
pub struct IntentFilter {
    pub name: String,
    pub data: Vec<IntentFilterData>,
    pub categories: Vec<String>,
}

/// A `meta-data` element attached to the application.
#[derive(Clone, Debug)]
pub struct ApplicationMetadata {
    pub name: String,
    pub value: String,
}

/// A `meta-data` element attached to the main activity.
#[derive(Clone, Debug)]
pub struct ActivityMetadata {
    pub name: String,
    pub value: String,
}

/// A feature as declared in the configuration file; requiredness is
/// optional and defaults to required.
#[derive(Clone, Debug)]
pub struct FeatureConfig {
    pub name: String,
    pub required: Option<bool>,
}

impl vstd::std_specs::convert::FromSpecImpl<FeatureConfig> for Feature {
    open spec fn obeys_from_spec() -> bool {
        true
    }

    open spec fn from_spec(config: FeatureConfig) -> Feature {
        Feature {
            name: config.name,
            required: match config.required {
                Some(r) => r,
                None => true,
            },
        }
    }
}

impl From<FeatureConfig> for Feature {
    fn from(config: FeatureConfig) -> Self {
        Self {
            name: config.name,
            required: match config.required {
                Some(r) => r,
                None => true,
            },
        }
    }
}

/// A permission as declared in the configuration file.
#[derive(Clone, Debug)]
pub struct PermissionConfig {
    pub name: String,
    pub max_sdk_version: Option<u32>,
}

impl vstd::std_specs::convert::FromSpecImpl<PermissionConfig> for Permission {
    open spec fn obeys_from_spec() -> bool {
        true
    }

    open spec fn from_spec(config: PermissionConfig) -> Permission {
        Permission { name: config.name, max_sdk_version: config.max_sdk_version }
    }
}

impl From<PermissionConfig> for Permission {
    fn from(config: PermissionConfig) -> Self {
        Self { name: config.name, max_sdk_version: config.max_sdk_version }
    }
}

/// One intent-filter data clause as declared in the configuration file.
#[derive(Clone, Debug)]
pub struct IntentFilterConfigData {
    pub scheme: Option<String>,
    pub host: Option<String>,
    pub prefix: Option<String>,
}

impl vstd::std_specs::convert::FromSpecImpl<IntentFilterConfigData> for IntentFilterData {
    open spec fn obeys_from_spec() -> bool {
        true
    }

    open spec fn from_spec(config: IntentFilterConfigData) -> IntentFilterData {
        IntentFilterData { scheme: config.scheme, host: config.host, prefix: config.prefix }
    }
}

impl From<IntentFilterConfigData> for IntentFilterData {
    fn from(config: IntentFilterConfigData) -> Self {
        Self { scheme: config.scheme, host: config.host, prefix: config.prefix }
    }
}

/// The conversion one data clause undergoes.
pub open spec fn data_from_config(config: IntentFilterConfigData) -> IntentFilterData {
    <IntentFilterData as vstd::std_specs::convert::FromSpec<IntentFilterConfigData>>::from_spec(
        config,
    )
}

/// An intent filter as declared in the configuration file.
#[derive(Clone, Debug)]
pub struct IntentFilterConfig {
    pub name: String,
    pub data: Vec<IntentFilterConfigData>,
    pub categories: Vec<String>,
}

impl vstd::std_specs::convert::FromSpecImpl<IntentFilterConfig> for IntentFilter {
    // The converted data vector cannot be written down as a spec-level
    // `Vec`, so the conversion's contract stands on the `from` method
    // itself instead of on `from_spec`.
    open spec fn obeys_from_spec() -> bool {
        false
    }

    open spec fn from_spec(config: IntentFilterConfig) -> IntentFilter {
        arbitrary()
    }
}

impl From<IntentFilterConfig> for IntentFilter {
    /// Converts the declared filter: the data clauses are each converted
    /// and their order is reversed; name and categories carry over.
    fn from(config: IntentFilterConfig) -> (r: Self)
        ensures
            r.name@ == config.name@,
            r.data@ == config.data@.map_values(|d: IntentFilterConfigData| data_from_config(d))
                .reverse(),
            r.categories@ == config.categories@,
    {
        let name = config.name;
        let mut data = config.data;
        let categories = config.categories;
        let ghost orig = data@;
        let n = data.len();
        let mut converted: Vec<IntentFilterData> = Vec::new();
        let mut k: usize = 0;
        while k < n
            invariant
                k <= n,
                n == orig.len(),
                data@ == orig.take((n - k) as int),
                converted@.len() == k,
                forall|j: int| 0 <= j < k ==> converted@[j] == data_from_config(
                    orig[n - 1 - j],
                ),
            decreases n - k,
        {
            let d = match data.pop() {
                Some(d) => d,
                None => {
                    proof {
                        assert(data@.len() == n - k);
                    }
                    unreached()
                },
            };
            proof {
                assert(orig.take((n - k) as int).last() == orig[n - k - 1]);
                assert(orig.take((n - k) as int).drop_last() =~= orig.take((n - (k + 1)) as int));
            }
            converted.push(IntentFilterData::from(d));
            k += 1;
        }
        proof {
            let mapped = orig.map_values(|d: IntentFilterConfigData| data_from_config(d));
            assert(converted@ =~= mapped.reverse());
        }
        Self { name, data: converted, categories }
    }
}

/// An application metadata entry as declared in the configuration file.
#[derive(Clone, Debug)]
pub struct ApplicationMetadataConfig {
    pub name: String,
    pub value: String,
}

impl vstd::std_specs::convert::FromSpecImpl<ApplicationMetadataConfig> for ApplicationMetadata {
    open spec fn obeys_from_spec() -> bool {
        true
    }

    open spec fn from_spec(config: ApplicationMetadataConfig) -> ApplicationMetadata {
        ApplicationMetadata { name: config.name, value: config.value }
    }
}

impl From<ApplicationMetadataConfig> for ApplicationMetadata {
    fn from(config: ApplicationMetadataConfig) -> Self {
        Self { name: config.name, value: config.value }
    }
}

/// An activity metadata entry as declared in the configuration file.
#[derive(Clone, Debug)]
pub struct ActivityMetadataConfig {
    pub name: String,
    pub value: String,
}

impl vstd::std_specs::convert::FromSpecImpl<ActivityMetadataConfig> for ActivityMetadata {
    open spec fn obeys_from_spec() -> bool {
        true
    }

    open spec fn from_spec(config: ActivityMetadataConfig) -> ActivityMetadata {
        ActivityMetadata { name: config.name, value: config.value }
    }
}

impl From<ActivityMetadataConfig> for ActivityMetadata {
    fn from(config: ActivityMetadataConfig) -> Self {
        Self { name: config.name, value: config.value }
    }
}

/// The whole declarative metadata section for the Android side of a
/// project.
#[derive(Clone, Debug)]
pub struct AndroidMetadata {
    pub apk_label: Option<String>,
    pub target_sdk_version: Option<u32>,
    pub min_sdk_version: Option<u32>,
    pub icon: Option<String>,
    pub fullscreen: Option<bool>,
    pub orientation: Option<String>,
    pub opengles_version: Option<(u8, u8)>,
    pub feature: Option<Vec<FeatureConfig>>,
    pub permission: Option<Vec<PermissionConfig>>,
    pub intent_filter: Option<Vec<IntentFilterConfig>>,
    pub application_metadatas: Option<Vec<ApplicationMetadataConfig>>,
    pub activity_metadatas: Option<Vec<ActivityMetadataConfig>>,
    pub build_targets: Vec<AndroidTarget>,
    pub assets: Option<String>,
    pub res: Option<String>,
}

impl Default for AndroidMetadata {
    /// The empty metadata section: nothing declared, no build targets.
    fn default() -> (r: AndroidMetadata)
        ensures
            r.apk_label is None,
            r.target_sdk_version is None,
            r.min_sdk_version is None,
            r.icon is None,
            r.fullscreen is None,
            r.orientation is None,
            r.opengles_version is None,
            r.feature is None,
            r.permission is None,
            r.intent_filter is None,
            r.application_metadatas is None,
            r.activity_metadatas is None,
            r.build_targets@.len() == 0,
            r.assets is None,
            r.res is None,
    {
        AndroidMetadata {
            apk_label: None,
            target_sdk_version: None,
            min_sdk_version: None,
            icon: None,
            fullscreen: None,
            orientation: None,
            opengles_version: None,
            feature: None,
            permission: None,
            intent_filter: None,
            application_metadatas: None,
            activity_metadatas: None,
            build_targets: Vec::new(),
            assets: None,
            res: None,
        }
    }
}

} // verus!
