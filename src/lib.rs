pub mod identity;
pub mod mailer;
pub mod mail_service;
