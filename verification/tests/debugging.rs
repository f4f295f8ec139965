use avy_render::debugging::{MessageType, Severity};

#[test]
fn severity_of_each_bit() {
    assert_eq!(Severity::from_flags(0x1), Some(Severity::Verbose));
    assert_eq!(Severity::from_flags(0x10), Some(Severity::Info));
    assert_eq!(Severity::from_flags(0x100), Some(Severity::Warning));
    assert_eq!(Severity::from_flags(0x1000), Some(Severity::Error));
}

#[test]
fn severity_of_other_words_is_none() {
    assert_eq!(Severity::from_flags(0), None);
    assert_eq!(Severity::from_flags(0x11), None);
    assert_eq!(Severity::from_flags(0x2), None);
    assert_eq!(Severity::from_flags(u32::MAX), None);
}

#[test]
fn message_type_of_each_bit() {
    assert_eq!(MessageType::from_flags(1), Some(MessageType::General));
    assert_eq!(MessageType::from_flags(2), Some(MessageType::Validation));
    assert_eq!(MessageType::from_flags(4), Some(MessageType::Performance));
    assert_eq!(MessageType::from_flags(8), Some(MessageType::DeviceAddressBinding));
}

#[test]
fn message_type_of_other_words_is_none() {
    assert_eq!(MessageType::from_flags(0), None);
    assert_eq!(MessageType::from_flags(3), None);
    assert_eq!(MessageType::from_flags(16), None);
}
