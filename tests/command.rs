use buzzer::{
    hsv_to_rgb, LedCmd, MessageLedColor, MessageLedDetails, MessageLedPattern, MessageLedType,
    PatternError, Rgb,
};

fn message(kind: &str, details: Option<MessageLedDetails>) -> MessageLedPattern {
    MessageLedPattern { pattern: MessageLedType { pattern_type: kind.to_string(), details } }
}

fn details(dc: i64) -> MessageLedDetails {
    MessageLedDetails {
        duration_ms: 4000,
        period_ms: 500,
        dc,
        color: MessageLedColor { h: 120_000, s: 1000, v: 1000 },
    }
}

#[test]
fn off_needs_no_details() {
    assert_eq!(LedCmd::from_message(&message("off", None)), Ok(LedCmd::Off));
    assert_eq!(LedCmd::from_message(&message("off", Some(details(5000)))), Ok(LedCmd::Off));
}

#[test]
fn blink_message_becomes_blink() {
    let cmd = LedCmd::from_message(&message("blink", Some(details(250)))).unwrap();
    assert_eq!(
        cmd,
        LedCmd::Blink {
            color: Rgb { r: 0, g: 255, b: 0 },
            duration_ms: 4000,
            period_ms: 500,
            duty_cycle: 25
        }
    );
}

#[test]
fn wave_message_becomes_wave() {
    let mut d = details(1000);
    d.color = MessageLedColor { h: -30_000, s: 1000, v: 1000 };
    let cmd = LedCmd::from_message(&message("wave", Some(d))).unwrap();
    assert_eq!(
        cmd,
        LedCmd::Wave {
            color: hsv_to_rgb(330_000, 1000, 1000),
            duration_ms: 4000,
            period_ms: 500,
            duty_cycle: 100
        }
    );
}

#[test]
fn duty_cycle_keeps_whole_percent() {
    let cmd = LedCmd::from_message(&message("blink", Some(details(299)))).unwrap();
    assert!(matches!(cmd, LedCmd::Blink { duty_cycle: 29, .. }));
    let cmd = LedCmd::from_message(&message("blink", Some(details(0)))).unwrap();
    assert!(matches!(cmd, LedCmd::Blink { duty_cycle: 0, .. }));
}

#[test]
fn missing_details_refused() {
    assert_eq!(LedCmd::from_message(&message("blink", None)), Err(PatternError::MissingDetails));
    assert_eq!(LedCmd::from_message(&message("wave", None)), Err(PatternError::MissingDetails));
}

#[test]
fn duty_cycle_outside_unit_refused() {
    assert_eq!(
        LedCmd::from_message(&message("blink", Some(details(1001)))),
        Err(PatternError::InvalidDutyCycle)
    );
    assert_eq!(
        LedCmd::from_message(&message("wave", Some(details(-1)))),
        Err(PatternError::InvalidDutyCycle)
    );
}

#[test]
fn unknown_type_refused() {
    assert_eq!(
        LedCmd::from_message(&message("strobe", Some(details(500)))),
        Err(PatternError::InvalidPatternType)
    );
    assert_eq!(
        LedCmd::from_message(&message("Off", Some(details(500)))),
        Err(PatternError::InvalidPatternType)
    );
    assert_eq!(LedCmd::from_message(&message("", None)), Err(PatternError::MissingDetails));
}
