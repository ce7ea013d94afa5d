//! Validated subscriber data.

mod subscriber;
mod subscriber_name;

pub use subscriber::{RawSubscriber, Subscriber};
pub use subscriber_name::{
    blank_message, grapheme_count, has_forbidden_char, invalid_characters_message,
    is_forbidden_char, is_valid_name, parse_outcome, rejection_for, too_long_message, is_blank, is_white_space, is_trim_of,
    SubscriberName, MAX_NAME_LENGTH, parse_accepts_exactly_valid_names,
};
