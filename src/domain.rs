pub mod subscriber_email;
pub mod subscriber_name;
pub mod text;

pub use subscriber_email::SubscriberEmail;
pub use subscriber_name::SubscriberName;
