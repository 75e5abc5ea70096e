//! A scrolling-texture material extension.
//!
//! The library carries the state and the decisions of a small material
//! extension: a per-material scroll-speed vector, the fragment-shader
//! reference shared by every material instance, and the sequence of steps
//! that installs the extension into a host rendering pipeline. The host
//! engine itself (rendering, assets, input) lives outside the library.

mod plugin;
mod scroll;

pub use plugin::HostPipeline;
pub use plugin::RegistrationStep;
pub use plugin::ScrollMatExtension;
pub use plugin::ScrollMatPlugin;
pub use plugin::apply_step;
pub use plugin::apply_steps;
pub use plugin::build_steps_spec;
pub use plugin::lemma_registration_enables_material;
pub use plugin::material_type_usable;
pub use plugin::shader_path_spec;
pub use scroll::ScrollSpeed;
pub use scroll::displacement;
pub use scroll::lemma_delta_composition;
pub use scroll::lemma_zero_speed_static;
pub use scroll::vec_add;
