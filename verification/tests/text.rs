//! Texts, handles and records.

use clack_params::info::ParamInfo;
use clack_params::instance::{InstanceState, PluginInstance};
use clack_params::text::{written_text, DisplayText};

#[test]
fn written_text_ends_at_first_terminator() {
    assert_eq!(written_text(b"gain\0\0\0"), b"gain");
    assert_eq!(written_text(b"a\0b\0"), b"a");
    assert_eq!(written_text(b"\0"), b"");
}

#[test]
fn written_text_of_unterminated_buffer_is_the_buffer() {
    assert_eq!(written_text(b"gain"), b"gain");
    assert_eq!(written_text(b""), b"");
    let full = [0xFFu8; 300];
    assert_eq!(written_text(&full), &full[..]);
}

#[test]
fn display_text_accepts_text_without_terminator() {
    let text = DisplayText::new(b"-6 dB").unwrap();
    assert_eq!(text.as_bytes(), b"-6 dB");
    assert_eq!(text.to_bytes_with_nul(), b"-6 dB\0".to_vec());
    let empty = DisplayText::new(b"").unwrap();
    assert_eq!(empty.as_bytes(), b"");
    assert_eq!(empty.to_bytes_with_nul(), vec![0u8]);
}

#[test]
fn display_text_rejects_a_terminator_inside() {
    assert!(DisplayText::new(b"a\0b").is_none());
    assert!(DisplayText::new(b"\0").is_none());
    assert!(DisplayText::new(b"ab\0").is_none());
}

#[test]
fn marshalled_display_text_reads_back() {
    let text = DisplayText::new(b"12.5").unwrap();
    let wire = text.to_bytes_with_nul();
    assert_eq!(written_text(&wire), text.as_bytes());
}

#[test]
fn display_name_is_cut_at_the_terminator() {
    let mut info = ParamInfo {
        id: 1,
        flags: 0,
        name: b"Cutoff\0garbage".to_vec(),
        min_value: 0,
        max_value: 0,
        default_value: 0,
    };
    assert_eq!(info.display_name(), b"Cutoff");
    info.name = b"unterminated".to_vec();
    assert_eq!(info.display_name(), b"unterminated");
    info.name = Vec::new();
    assert_eq!(info.display_name(), b"");
}

#[test]
fn instance_reports_its_state() {
    let inactive = PluginInstance::new(InstanceState::Inactive);
    assert!(!inactive.is_active());
    assert_eq!(inactive.state(), InstanceState::Inactive);
    assert!(PluginInstance::new(InstanceState::ActiveStopped).is_active());
    assert!(PluginInstance::new(InstanceState::ActiveProcessing).is_active());
    assert!(!InstanceState::Inactive.is_active());
    assert!(InstanceState::ActiveStopped.is_active());
    assert!(InstanceState::ActiveProcessing.is_active());
}

#[test]
fn stopped_processor_exists_only_when_stopped() {
    assert!(PluginInstance::new(InstanceState::Inactive).stopped_processor().is_none());
    assert!(PluginInstance::new(InstanceState::ActiveProcessing).stopped_processor().is_none());
    let processor = PluginInstance::new(InstanceState::ActiveStopped).stopped_processor().unwrap();
    assert_eq!(processor.state(), InstanceState::ActiveStopped);
}
