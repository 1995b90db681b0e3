//! Window management.

pub mod apps;
pub mod apps_laws;
pub mod clients;
pub mod clients_laws;
pub mod draw;
pub mod draw_laws;
pub mod focus;
pub mod focus_laws;
pub mod input;
pub mod input_laws;
pub mod launch;
pub mod launch_laws;
pub mod laws;
pub mod log;
pub mod output;
pub mod output_laws;
pub mod queries;
pub mod scene;
pub mod scene_laws;
pub mod state;
pub mod surface;
pub mod surface_laws;
pub mod transaction;
pub mod transaction_laws;
pub mod view_laws;

pub use state::{start_transaction, Windows};
