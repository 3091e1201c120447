pub mod band;
pub mod hittable_list;
pub mod integrator;
pub mod pixels;
pub mod render;
