//! Functionality that's specific to Drupal.

mod form;
mod log_in;
mod login;
pub mod laws;

pub use self::form::form_pattern;
pub use self::form::form_value_pattern;
pub use self::form::get_form;
pub use self::form::get_form_value;
pub use self::form::remove_newlines;
pub use self::form::try_get_form;
pub use self::form::try_get_form_value;
pub use self::log_in::form_outcome;
pub use self::log_in::login_failed_message;
pub use self::log_in::login_params;
pub use self::log_in::missing_build_id_message;
pub use self::log_in::missing_form_message;
pub use self::log_in::resolve_password;
pub use self::log_in::resolve_path;
pub use self::log_in::resolve_title;
pub use self::log_in::resolve_username;
pub use self::log_in::LogInAction;
pub use self::log_in::LogInActionView;
pub use self::log_in::LogInEvent;
pub use self::log_in::LogInFlow;
pub use self::log_in::LogInFlowView;
pub use self::log_in::LogInStage;
pub use self::login::Login;
pub use self::login::LoginView;
