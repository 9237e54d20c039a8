//! Army-builder core for a tabletop miniatures game: the dice-notation value
//! type, the catalog data shapes, the action-eligibility rule and the profile
//! derivation engine. Everything here is pure and free of I/O; loading the
//! catalogs, the interactive menus and the PDF export live in the surrounding
//! application.

pub mod action;
pub mod app_state;
pub mod card_layout;
pub mod characteristics;
pub mod class;
pub mod damage_chart;
pub mod dice_value;
pub mod eligibility;
pub mod modifier;
pub mod profile;
pub mod strutil;
pub mod weapon;

pub use action::Action;
pub use class::Class;
pub use class::ClassesConfig;
pub use modifier::Modifier;
pub use profile::create_profile;
pub use profile::Profile;
pub use weapon::Weapon;
pub use weapon::WeaponOption;
pub use weapon::WeaponsConfig;
