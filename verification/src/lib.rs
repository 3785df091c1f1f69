//! A stateless, token-based authentication and per-resource authorization
//! library: credential verification and token issuance, per-request identity
//! resolution from a bearer token, and strict ownership enforcement before
//! any resource operation runs.

pub mod codec;
pub mod errors;
pub mod gate;
pub mod ids;
pub mod model;
pub mod resolver;
pub mod session;
pub mod todos;

pub use codec::sign;
pub use codec::verify;
pub use errors::AuthError;
pub use gate::authorize;
pub use gate::check_ownership;
pub use ids::check_id_shape;
pub use ids::is_uuid_str;
pub use model::Claims;
pub use model::CreateTodoForm;
pub use model::Identity;
pub use model::LoginForm;
pub use model::LoginResponse;
pub use model::RegisterForm;
pub use model::Todo;
pub use model::UpdateTodoForm;
pub use model::User;
pub use resolver::JwtVerifier;
pub use session::login;
pub use session::validate_login;
pub use session::validate_register;
pub use todos::toggle_todo;
pub use todos::update_todo;
