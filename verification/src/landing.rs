//! The landing-page plugin: its configuration, feature list and headline
//! statistics.  The routing that serves the page lives outside; this module
//! holds the data and the builder that assembles it.

use vstd::prelude::*;

verus! {

/// One feature shown on the landing page.
#[derive(Debug)]
pub struct Feature {
    pub icon: String,
    pub title: String,
    pub description: String,
}

/// Mathematical image of a [`Feature`].
pub struct FeatureModel {
    pub icon: Seq<char>,
    pub title: Seq<char>,
    pub description: Seq<char>,
}

impl View for Feature {
    type V = FeatureModel;

    open spec fn view(&self) -> FeatureModel {
        FeatureModel { icon: self.icon@, title: self.title@, description: self.description@ }
    }
}

impl Clone for Feature {
    fn clone(&self) -> (r: Self)
        ensures
            r@ == self@,
    {
        Feature {
            icon: self.icon.clone(),
            title: self.title.clone(),
            description: self.description.clone(),
        }
    }
}

/// The landing page's words: headline, subline, and the feature list.
#[derive(Debug)]
pub struct LandingConfig {
    pub title: String,
    pub subtitle: String,
    pub features: Vec<Feature>,
}

/// Mathematical image of a [`LandingConfig`].
#[verifier::ext_equal]
pub struct LandingConfigModel {
    pub title: Seq<char>,
    pub subtitle: Seq<char>,
    pub features: Seq<FeatureModel>,
}

impl View for LandingConfig {
    type V = LandingConfigModel;

    open spec fn view(&self) -> LandingConfigModel {
        LandingConfigModel {
            title: self.title@,
            subtitle: self.subtitle@,
            features: self.features@.map_values(|f: Feature| f@),
        }
    }
}

impl Clone for LandingConfig {
    fn clone(&self) -> (r: Self)
        ensures
            r@ == self@,
    {
        let mut features: Vec<Feature> = Vec::new();
        let mut i: usize = 0;
        while i < self.features.len()
            invariant
                0 <= i <= self.features@.len(),
                features@.len() == i,
                forall|j: int| 0 <= j < i ==> features@[j]@ == self.features@[j]@,
            decreases self.features@.len() - i,
        {
            features.push(self.features[i].clone());
            i = i + 1;
        }
        let r = LandingConfig {
            title: self.title.clone(),
            subtitle: self.subtitle.clone(),
            features,
        };
        proof {
            assert(r@.features =~= self@.features);
            assert(r@ =~= self@);
        }
        r
    }
}

/// The words the landing page ships with.
pub open spec fn default_landing_model() -> LandingConfigModel {
    LandingConfigModel {
        title: "HTMX Rust 模板"@,
        subtitle: "快速构建现代化的 Web 应用"@,
        features: seq![
            (FeatureModel {
                icon: "🚀"@,
                title: "快速开发"@,
                description: "使用 HTMX 和 Rust 快速构建交互式应用"@,
            }),
            (FeatureModel {
                icon: "⚡"@,
                title: "高性能"@,
                description: "基于 Axum 和 Tokio，提供卓越的性能"@,
            }),
            (FeatureModel {
                icon: "🔒"@,
                title: "类型安全"@,
                description: "Rust 的类型系统确保代码的安全性"@,
            }),
        ],
    }
}

impl Default for LandingConfig {
    /// The stock headline and its three features.
    fn default() -> (r: Self)
        ensures
            r@ == default_landing_model(),
    {
        let mut features: Vec<Feature> = Vec::new();
        features.push(
            Feature {
                icon: "🚀".to_owned(),
                title: "快速开发".to_owned(),
                description: "使用 HTMX 和 Rust 快速构建交互式应用".to_owned(),
            },
        );
        features.push(
            Feature {
                icon: "⚡".to_owned(),
                title: "高性能".to_owned(),
                description: "基于 Axum 和 Tokio，提供卓越的性能".to_owned(),
            },
        );
        features.push(
            Feature {
                icon: "🔒".to_owned(),
                title: "类型安全".to_owned(),
                description: "Rust 的类型系统确保代码的安全性".to_owned(),
            },
        );
        let r = LandingConfig {
            title: "HTMX Rust 模板".to_owned(),
            subtitle: "快速构建现代化的 Web 应用".to_owned(),
            features,
        };
        proof {
            assert(r@.features =~= default_landing_model().features);
            assert(r@ =~= default_landing_model());
        }
        r
    }
}

/// Headline statistics shown on the landing page.
#[derive(Clone, Copy, Debug, PartialEq, Eq, Structural)]
pub struct Stats {
    pub user_count: u64,
    pub project_count: u64,
    pub satisfaction: u64,
}

impl Default for Stats {
    /// The stock figures.
    fn default() -> (r: Self)
        ensures
            r.user_count == 1000,
            r.project_count == 500,
            r.satisfaction == 98,
    {
        Stats { user_count: 1000, project_count: 500, satisfaction: 98 }
    }
}

/// The landing-page plugin: configuration wrapped for mounting.
#[derive(Debug)]
pub struct LandingPlugin {
    pub config: LandingConfig,
}

impl LandingPlugin {
    /// A plugin with the stock words.
    pub fn new() -> (r: Self)
        ensures
            r.config@ == default_landing_model(),
    {
        LandingPlugin { config: LandingConfig::default() }
    }

    /// Replaces the whole configuration.
    pub fn with_config(self, config: LandingConfig) -> (r: Self)
        ensures
            r.config@ == config@,
    {
        LandingPlugin { config }
    }

    /// Replaces the headline, keeping everything else.
    pub fn with_title(self, title: String) -> (r: Self)
        ensures
            r.config@ == (LandingConfigModel { title: title@, ..self.config@ }),
    {
        let LandingPlugin { config } = self;
        let LandingConfig { title: _, subtitle, features } = config;
        let r = LandingPlugin { config: LandingConfig { title, subtitle, features } };
        proof {
            assert(r.config@ =~= (LandingConfigModel { title: r.config.title@, ..self.config@ }));
        }
        r
    }

    /// Replaces the subline, keeping everything else.
    pub fn with_subtitle(self, subtitle: String) -> (r: Self)
        ensures
            r.config@ == (LandingConfigModel { subtitle: subtitle@, ..self.config@ }),
    {
        let LandingPlugin { config } = self;
        let LandingConfig { title, subtitle: _, features } = config;
        let r = LandingPlugin { config: LandingConfig { title, subtitle, features } };
        proof {
            assert(r.config@ =~= (LandingConfigModel {
                subtitle: r.config.subtitle@,
                ..self.config@
            }));
        }
        r
    }
}

impl Default for LandingPlugin {
    /// The same plugin [`LandingPlugin::new`] builds.
    fn default() -> (r: Self)
        ensures
            r.config@ == default_landing_model(),
    {
        LandingPlugin::new()
    }
}

} // verus!
