//! The scenes of a device model as a capability that a device can be asked
//! for.

use vstd::prelude::*;
use vstd::string::StringExecFns;
use crate::client::GoveeUndocumentedApi;
use crate::responses::{LightEffectCategory, LightEffectScene};

verus! {

/// What selects a scene on a device: the parameters of its first light
/// effect, and the scene itself.
#[derive(Debug, Clone, Copy, PartialEq, Eq, Structural)]
pub struct SceneSelector {
    pub param_id: u32,
    pub id: u32,
}

/// One value of an enumerated parameter: a name, and what it selects.
#[derive(Debug, PartialEq, Eq)]
pub struct EnumOption {
    pub name: String,
    pub value: SceneSelector,
}

/// The kinds of capability that this crate makes up.
#[derive(Debug, Clone, Copy, PartialEq, Eq, Structural)]
pub enum DeviceCapabilityKind {
    DynamicScene,
}

/// The parameters of a capability.
#[derive(Debug, PartialEq, Eq)]
pub enum DeviceParameters {
    Enum { options: Vec<EnumOption> },
}

/// Something that a device can be asked to do.
#[derive(Debug, PartialEq, Eq)]
pub struct DeviceCapability {
    pub kind: DeviceCapabilityKind,
    pub parameters: Option<DeviceParameters>,
    pub instance: String,
}

impl View for EnumOption {
    type V = (Seq<char>, SceneSelector);

    open spec fn view(&self) -> (Seq<char>, SceneSelector) {
        (self.name@, self.value)
    }
}

/// The names and selectors of `options`, in order.
pub open spec fn option_views(options: Seq<EnumOption>) -> Seq<(Seq<char>, SceneSelector)> {
    Seq::new(options.len(), |i: int| options[i]@)
}

/// The option that selects `scene`, which has a light effect.
pub open spec fn option_of(scene: LightEffectScene) -> (Seq<char>, SceneSelector) {
    (
        scene.scene_name@,
        SceneSelector { param_id: scene.light_effects@[0].scence_param_id, id: scene.scene_id },
    )
}

/// The option that a scene becomes, if it has a light effect.
pub open spec fn option_if_any() -> spec_fn(LightEffectScene) -> Option<(Seq<char>, SceneSelector)> {
    |scene: LightEffectScene|
        if scene.light_effects@.len() == 0 {
            None
        } else {
            Some(option_of(scene))
        }
}

/// The options for the scenes of a category: one for each scene that has a
/// light effect, in order.
pub open spec fn options_of_category() -> spec_fn(LightEffectCategory) -> Seq<
    (Seq<char>, SceneSelector),
> {
    |category: LightEffectCategory| category.scenes@.filter_map(option_if_any())
}

/// The options for the scenes of `catalog`, category after category.
pub open spec fn options_of(catalog: Seq<LightEffectCategory>) -> Seq<(Seq<char>, SceneSelector)> {
    catalog.flat_map(options_of_category())
}

impl GoveeUndocumentedApi {
    /// Makes up the capability that lists every scene of `catalog`: the one
    /// capability of kind `DynamicScene` and instance `lightScene`, whose
    /// options are the scenes that have a light effect, in the order of the
    /// catalog.
    pub fn synthesize_platform_api_scene_list(catalog: &Vec<LightEffectCategory>) -> (result: Vec<
        DeviceCapability,
    >)
        ensures
            result@.len() == 1,
            result@[0].kind == DeviceCapabilityKind::DynamicScene,
            result@[0].instance@ == "lightScene"@,
            result@[0].parameters matches Some(DeviceParameters::Enum { options })
                && option_views(options@) == options_of(catalog@),
    {
        let mut options: Vec<EnumOption> = Vec::new();
        let mut c: usize = 0;
        assert(option_views(options@) =~= options_of(catalog@.take(0)));
        while c < catalog.len()
            invariant
                c <= catalog.len(),
                option_views(options@) == options_of(catalog@.take(c as int)),
            decreases catalog.len() - c,
        {
            let category = &catalog[c];
            let ghost base = option_views(options@);
            let mut s: usize = 0;
            assert(option_views(options@) =~= base + category.scenes@.take(0).filter_map(
                option_if_any(),
            ));
            while s < category.scenes.len()
                invariant
                    s <= category.scenes.len(),
                    option_views(options@) == base + category.scenes@.take(s as int).filter_map(
                        option_if_any(),
                    ),
                decreases category.scenes.len() - s,
            {
                let scene = &category.scenes[s];
                let ghost had = options@;
                proof {
                    category.scenes@.lemma_filter_map_take_succ(option_if_any(), s as int);
                }
                if scene.light_effects.len() > 0 {
                    let option = EnumOption {
                        name: scene.scene_name.clone(),
                        value: SceneSelector {
                            param_id: scene.light_effects[0].scence_param_id,
                            id: scene.scene_id,
                        },
                    };
                    assert(option@ == option_of(*scene));
                    options.push(option);
                    assert(option_views(options@) =~= option_views(had).push(option@));
                }
                assert(option_views(options@) =~= base + category.scenes@.take(s + 1).filter_map(
                    option_if_any(),
                ));
                s += 1;
            }
            proof {
                assert(category.scenes@.take(s as int) =~= category.scenes@);
                catalog@.lemma_flat_map_take_append(options_of_category(), c as int);
            }
            c += 1;
        }
        assert(catalog@.take(c as int) =~= catalog@);
        let mut result: Vec<DeviceCapability> = Vec::new();
        result.push(
            DeviceCapability {
                kind: DeviceCapabilityKind::DynamicScene,
                parameters: Some(DeviceParameters::Enum { options }),
                instance: String::from_str("lightScene"),
            },
        );
        result
    }
}

} // verus!
