use vstd::prelude::*;
use crate::scroll::ScrollSpeed;

verus! {

/// The virtual asset path under which the extension's fragment-shader
/// source is embedded. It is fixed at registration time and shared by
/// every material instance using the extension.
pub open spec fn shader_path_spec() -> Seq<char> {
    "embedded://bevy_scrollmat/assets/scrollmat.wgsl"@
}

/// The material extension: one scroll-speed vector per material instance,
/// added to the host's standard material record and uploaded to the GPU as
/// a uniform once per frame.
#[derive(Clone, Copy, Debug, PartialEq, Eq, Structural)]
pub struct ScrollMatExtension {
    /// Scroll speed, per second.
    pub scroll_speed: ScrollSpeed,
}

impl ScrollMatExtension {
    /// A material extension with the given scroll speed.
    pub fn new(scroll_speed: ScrollSpeed) -> (e: ScrollMatExtension)
        ensures
            e.scroll_speed == scroll_speed,
    {
        ScrollMatExtension { scroll_speed }
    }

    /// The uniform value the host uploads for this material instance:
    /// exactly the current scroll speed.
    pub fn uniform_value(&self) -> (u: ScrollSpeed)
        ensures
            u == self.scroll_speed,
    {
        self.scroll_speed
    }

    /// The shader reference used for the forward pass of the host's
    /// material pipeline.
    pub fn fragment_shader() -> (p: &'static str)
        ensures
            p@ == shader_path_spec(),
    {
        "embedded://bevy_scrollmat/assets/scrollmat.wgsl"
    }

    /// The shader reference used for the deferred pass: the same fragment
    /// source as the forward pass.
    pub fn deferred_fragment_shader() -> (p: &'static str)
        ensures
            p@ == shader_path_spec(),
    {
        "embedded://bevy_scrollmat/assets/scrollmat.wgsl"
    }
}

impl Default for ScrollMatExtension {
    /// The default extension scrolls nowhere: its speed is the zero vector.
    fn default() -> (e: ScrollMatExtension)
        ensures
            e.scroll_speed@ == ((0int, 0int)),
    {
        ScrollMatExtension { scroll_speed: ScrollSpeed::zero() }
    }
}

/// One step that a host application must perform to install the extension.
#[derive(Clone, Copy, Debug, PartialEq, Eq, Structural)]
pub enum RegistrationStep {
    /// Make the embedded fragment-shader source resolvable under the
    /// extension's asset path.
    LoadShaderAsset,
    /// Register the extended material type with the host's material
    /// pipeline, so meshes carrying it are drawn with the custom fragment
    /// stage.
    RegisterMaterialType,
}

/// The slice of host state that registration touches: whether the shader
/// source is resolvable, and whether the extended material type is known
/// to the material pipeline.
#[derive(Clone, Copy, Debug, PartialEq, Eq, Structural)]
pub struct HostPipeline {
    /// The shader source can be resolved under its asset path.
    pub shader_asset_loaded: bool,
    /// The extended material type is registered with the pipeline.
    pub material_type_registered: bool,
}

/// The effect of one registration step on the host pipeline state. Each
/// step establishes its own flag and leaves the other untouched.
pub open spec fn apply_step(h: HostPipeline, step: RegistrationStep) -> HostPipeline {
    match step {
        RegistrationStep::LoadShaderAsset => HostPipeline {
            shader_asset_loaded: true,
            material_type_registered: h.material_type_registered,
        },
        RegistrationStep::RegisterMaterialType => HostPipeline {
            shader_asset_loaded: h.shader_asset_loaded,
            material_type_registered: true,
        },
    }
}

/// The effect of a sequence of registration steps, applied left to right.
pub open spec fn apply_steps(h: HostPipeline, steps: Seq<RegistrationStep>) -> HostPipeline
    decreases steps.len(),
{
    if steps.len() == 0 {
        h
    } else {
        apply_steps(apply_step(h, steps[0]), steps.skip(1))
    }
}

/// The extended material type can back a spawned mesh once the type is
/// registered and its shader source can be resolved.
pub open spec fn material_type_usable(h: HostPipeline) -> bool {
    h.shader_asset_loaded && h.material_type_registered
}

impl HostPipeline {
    /// A fresh host: nothing loaded, nothing registered.
    pub fn new() -> (h: HostPipeline)
        ensures
            h == (HostPipeline { shader_asset_loaded: false, material_type_registered: false }),
    {
        HostPipeline { shader_asset_loaded: false, material_type_registered: false }
    }

    /// Performs one registration step on the pipeline state.
    pub fn apply(&mut self, step: RegistrationStep)
        ensures
            *final(self) == apply_step(*old(self), step),
    {
        match step {
            RegistrationStep::LoadShaderAsset => {
                self.shader_asset_loaded = true;
            }
            RegistrationStep::RegisterMaterialType => {
                self.material_type_registered = true;
            }
        }
    }
}

/// The plugin that installs the scrolling-material extension into a host
/// application.
pub struct ScrollMatPlugin;

/// The steps that `ScrollMatPlugin` asks the host to perform, in order:
/// first embed the shader source, then register the material type.
pub open spec fn build_steps_spec() -> Seq<RegistrationStep> {
    seq![RegistrationStep::LoadShaderAsset, RegistrationStep::RegisterMaterialType]
}

impl ScrollMatPlugin {
    /// The registration steps for the host to run, in order.
    pub fn build(&self) -> (steps: Vec<RegistrationStep>)
        ensures
            steps@ == build_steps_spec(),
    {
        let mut steps: Vec<RegistrationStep> = Vec::new();
        steps.push(RegistrationStep::LoadShaderAsset);
        steps.push(RegistrationStep::RegisterMaterialType);
        proof {
            assert(steps@ =~= build_steps_spec());
        }
        steps
    }

    /// Runs every registration step against the host pipeline state, in
    /// order. Afterwards the extended material type is usable.
    pub fn install(&self, host: &mut HostPipeline)
        ensures
            *final(host) == apply_steps(*old(host), build_steps_spec()),
            material_type_usable(*final(host)),
    {
        let steps = self.build();
        let mut i: usize = 0;
        proof {
            assert(steps@.skip(0) =~= steps@);
        }
        while i < steps.len()
            invariant
                i <= steps@.len(),
                steps@ == build_steps_spec(),
                apply_steps(*host, steps@.skip(i as int)) == apply_steps(
                    *old(host),
                    build_steps_spec(),
                ),
            decreases steps@.len() - i,
        {
            proof {
                assert(steps@.skip(i as int).len() != 0);
                assert(steps@.skip(i as int)[0] == steps@[i as int]);
                assert(steps@.skip(i as int).skip(1) =~= steps@.skip(i as int + 1));
            }
            host.apply(steps[i]);
            i = i + 1;
        }
        proof {
            assert(steps@.skip(i as int) =~= Seq::<RegistrationStep>::empty());
            lemma_registration_enables_material(*old(host));
        }
    }
}

/// Registering the extension once, from any host state, leaves the
/// extended material type usable by the host's material-spawn interface.
pub proof fn lemma_registration_enables_material(h0: HostPipeline)
    ensures
        material_type_usable(apply_steps(h0, build_steps_spec())),
{
    let s = build_steps_spec();
    let h1 = apply_step(h0, s[0]);
    assert(apply_steps(h0, s) == apply_steps(h1, s.skip(1)));
    assert(s.skip(1)[0] == s[1]);
    assert(s.skip(1).skip(1) =~= Seq::<RegistrationStep>::empty());
    let h2 = apply_step(h1, s[1]);
    assert(apply_steps(h1, s.skip(1)) == apply_steps(h2, s.skip(1).skip(1)));
}

} // verus!
