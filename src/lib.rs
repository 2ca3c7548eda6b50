//! Locates an installed R interpreter: first on the executable search path,
//! then through the value of the `R_HOME` variable, then among the usual
//! install locations of each platform.
pub mod find_r_bin;
mod host;
pub mod policy;

pub use find_r_bin::{
    dir_from_common_loc, dir_from_path_envvar, dir_from_r_home_envvar, find_r_bin,
};
