pub mod config;
pub mod handler;
pub mod mailbox;
pub mod message;
pub mod response;
pub mod text;
pub mod transport;

pub use config::Config;
pub use config::ConfigError;
pub use config::EnvValues;
pub use config::load_config;
pub use handler::SendEmailRequest;
pub use handler::ValidationError;
pub use handler::prepare_email;
pub use handler::validation_reply;
pub use mailbox::is_valid_mailbox;
pub use response::ApiResponse;
pub use response::HttpReply;
pub use response::delivery_reply;
pub use response::health_reply;
pub use transport::MailTransport;
pub use transport::TransportError;
pub use transport::build_mailer;
