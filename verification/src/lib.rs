//! Verified core of an AppImage desktop integrator: launcher-descriptor
//! parsing and generation, icon selection and placement paths, and the
//! decision logic of the install, uninstall and update pipelines.
//!
//! All filesystem and process work is left to a thin unverified shell; the
//! functions here compute, from plain values, exactly what that shell must
//! read and write.

pub mod app_image_installer;
pub mod app_image_uninstaller;
pub mod app_image_updater;
pub mod app_images_helpers;
pub mod app_store_service;
pub mod desktop_file_builder;
pub mod desktop_file_helpers;
pub mod desktop_file_props;
pub mod error;
pub mod file_system_helpers;
pub mod icons_helpers;
pub mod installed_list;
pub mod models;
pub mod privilege;
pub mod settings_service;
pub mod text;
