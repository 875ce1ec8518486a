use stompbox::control::{
    algorithm_for, interpret, parameter_for, parse_command, same_text, Amount, Command,
    EffectSelector, Parameter,
};
use stompbox::DistortionType;

fn adjust(parameter: Parameter, value: &str) -> Option<Command> {
    Some(Command::Adjust { parameter, value: value.to_string() })
}

#[test]
fn bit_crusher_line_selects_the_distortion() {
    let command = parse_command("bc 0.3 0.4");
    assert_eq!(
        command,
        Some(Command::BitCrusher { rate: "0.3".to_string(), depth: "0.4".to_string() })
    );
    let command = command.unwrap();
    assert_eq!(command.algorithm(), Some(DistortionType::BitCrusher));
    assert_eq!(command.selects(), Some(EffectSelector::Distortion));
    assert_eq!(EffectSelector::Reverb.after(&command), EffectSelector::Distortion);
    assert_eq!(EffectSelector::Distortion.after(&command), EffectSelector::Distortion);
    assert!(command.preset().is_empty());
    if let Command::BitCrusher { rate, depth } = command {
        assert_eq!(rate.parse::<f64>(), Ok(0.3));
        assert_eq!(depth.parse::<f64>(), Ok(0.4));
    } else {
        panic!("not the bit crusher");
    }
}

#[test]
fn reverb_parameters() {
    assert_eq!(parse_command("w 0.5"), adjust(Parameter::Wet, "0.5"));
    assert_eq!(parse_command("d 0.5"), adjust(Parameter::Dry, "0.5"));
    assert_eq!(parse_command("r 0.8"), adjust(Parameter::RoomSize, "0.8"));
    assert_eq!(parse_command("p 0.4"), adjust(Parameter::Dampening, "0.4"));
    assert_eq!(parse_command("x 1"), adjust(Parameter::Width, "1"));
}

#[test]
fn distortion_parameters() {
    assert_eq!(parse_command("dr 0.5"), adjust(Parameter::Drive, "0.5"));
    assert_eq!(parse_command("l 0"), adjust(Parameter::Level, "0"));
    assert_eq!(parse_command("t 2.5"), adjust(Parameter::Tone, "2.5"));
}

#[test]
fn algorithms() {
    assert_eq!(parse_command("soft"), Some(Command::Algorithm(DistortionType::Soft)));
    assert_eq!(parse_command("hard"), Some(Command::Algorithm(DistortionType::Hard)));
    assert_eq!(parse_command("bit"), Some(Command::Algorithm(DistortionType::BitCrusher)));
    assert_eq!(parse_command("wave"), Some(Command::Algorithm(DistortionType::Wavefolder)));
    assert_eq!(parse_command("over"), Some(Command::Algorithm(DistortionType::Overdrive)));
}

#[test]
fn commands_without_a_number() {
    assert_eq!(parse_command("dry"), Some(Command::DryOnly));
    assert_eq!(parse_command("pass"), Some(Command::Passthrough));
    assert_eq!(parse_command("q"), Some(Command::Quit));
}

#[test]
fn white_space_does_not_matter() {
    assert_eq!(parse_command("  dr \t 0.75\r\n"), adjust(Parameter::Drive, "0.75"));
    assert_eq!(parse_command("\thard\n"), Some(Command::Algorithm(DistortionType::Hard)));
    assert_eq!(
        parse_command("bc\u{a0}1\u{3000}0.1\n"),
        Some(Command::BitCrusher { rate: "1".to_string(), depth: "0.1".to_string() })
    );
}

#[test]
fn value_is_handed_on_as_typed() {
    assert_eq!(parse_command("w -3e2"), adjust(Parameter::Wet, "-3e2"));
    assert_eq!(parse_command("l loud"), adjust(Parameter::Level, "loud"));
    assert_eq!(
        parse_command("bc fast 0.4"),
        Some(Command::BitCrusher { rate: "fast".to_string(), depth: "0.4".to_string() })
    );
}

#[test]
fn lines_that_are_no_command() {
    for line in [
        "", " ", "\n", "w", "dr", "bc", "bc 0.3", "bc 0.3 0.4 0.5", "w 0.5 0.6", "soft 1",
        "dry 1", "q now", "pass 0 0", "W 0.5", "Soft", "quit", "wet 0.5", "y 0.5", "bd 0.3 0.4",
        "drive 1", "b c 1", "s", "softer", "sof", "overdrive", "dr0.5", "a b c d",
    ] {
        assert_eq!(parse_command(line), None);
    }
}

#[test]
fn verb_counts_only_with_its_number_of_words() {
    assert_eq!(parse_command("hard 1"), None);
    assert_eq!(parse_command("t"), None);
    assert_eq!(parse_command("t 1 2"), None);
    assert_eq!(parse_command("bc 1"), None);
    assert_eq!(parse_command("dry dry"), None);
}

#[test]
fn interpret_reads_given_words() {
    let line = vec!["x".to_string(), "0.5".to_string()];
    assert_eq!(interpret(&line), adjust(Parameter::Width, "0.5"));
    let line = vec!["bc".to_string(), "a".to_string(), "b".to_string()];
    assert_eq!(
        interpret(&line),
        Some(Command::BitCrusher { rate: "a".to_string(), depth: "b".to_string() })
    );
    let line = vec!["over".to_string()];
    assert_eq!(interpret(&line), Some(Command::Algorithm(DistortionType::Overdrive)));
    assert_eq!(interpret(&Vec::new()), None);
    let line = vec!["a b".to_string()];
    assert_eq!(interpret(&line), None);
}

#[test]
fn parameters_belong_to_their_unit() {
    assert_eq!(Parameter::Wet.effect(), EffectSelector::Reverb);
    assert_eq!(Parameter::Dry.effect(), EffectSelector::Reverb);
    assert_eq!(Parameter::RoomSize.effect(), EffectSelector::Reverb);
    assert_eq!(Parameter::Dampening.effect(), EffectSelector::Reverb);
    assert_eq!(Parameter::Width.effect(), EffectSelector::Reverb);
    assert_eq!(Parameter::Drive.effect(), EffectSelector::Distortion);
    assert_eq!(Parameter::Level.effect(), EffectSelector::Distortion);
    assert_eq!(Parameter::Tone.effect(), EffectSelector::Distortion);
}

#[test]
fn reverb_parameter_selects_the_reverb() {
    let command = parse_command("r 0.8").unwrap();
    assert_eq!(command.selects(), Some(EffectSelector::Reverb));
    assert_eq!(command.algorithm(), None);
    assert_eq!(EffectSelector::Distortion.after(&command), EffectSelector::Reverb);
    assert_eq!(EffectSelector::Reverb.after(&command), EffectSelector::Reverb);
}

#[test]
fn distortion_parameter_selects_the_distortion() {
    let command = parse_command("t 0.1").unwrap();
    assert_eq!(command.selects(), Some(EffectSelector::Distortion));
    assert_eq!(command.algorithm(), None);
    assert_eq!(EffectSelector::Reverb.after(&command), EffectSelector::Distortion);
}

#[test]
fn algorithm_selects_the_distortion() {
    let command = parse_command("wave").unwrap();
    assert_eq!(command.selects(), Some(EffectSelector::Distortion));
    assert_eq!(command.algorithm(), Some(DistortionType::Wavefolder));
    assert_eq!(EffectSelector::Reverb.after(&command), EffectSelector::Distortion);
    assert!(command.preset().is_empty());
}

#[test]
fn presets_and_quit_leave_the_selection() {
    for line in ["dry", "pass", "q"] {
        let command = parse_command(line).unwrap();
        assert_eq!(command.selects(), None);
        assert_eq!(command.algorithm(), None);
        assert_eq!(EffectSelector::Reverb.after(&command), EffectSelector::Reverb);
        assert_eq!(EffectSelector::Distortion.after(&command), EffectSelector::Distortion);
    }
}

#[test]
fn dry_only_writes_three_levels() {
    assert_eq!(
        Command::DryOnly.preset(),
        vec![
            (Parameter::Wet, Amount::Zero),
            (Parameter::Dry, Amount::Full),
            (Parameter::Level, Amount::Zero),
        ]
    );
}

#[test]
fn passthrough_writes_six_levels() {
    assert_eq!(
        Command::Passthrough.preset(),
        vec![
            (Parameter::Wet, Amount::Zero),
            (Parameter::Dry, Amount::Full),
            (Parameter::RoomSize, Amount::Zero),
            (Parameter::Dampening, Amount::Zero),
            (Parameter::Width, Amount::Half),
            (Parameter::Level, Amount::Zero),
        ]
    );
}

#[test]
fn other_commands_write_no_preset() {
    assert!(Command::Quit.preset().is_empty());
    assert!(parse_command("w 1").unwrap().preset().is_empty());
}

#[test]
fn verbs_are_compared_whole() {
    assert!(same_text("", ""));
    assert!(same_text("soft", "soft"));
    assert!(!same_text("soft", "sofa"));
    assert!(!same_text("soft", "sof"));
    assert!(!same_text("sof", "soft"));
    assert!(!same_text("", "q"));
    assert!(same_text("\u{e9}t\u{e9}", "\u{e9}t\u{e9}"));
    assert!(!same_text("\u{e9}", "e"));
}

#[test]
fn verbs_name_parameters_and_algorithms() {
    assert_eq!(parameter_for("dr"), Some(Parameter::Drive));
    assert_eq!(parameter_for("d"), Some(Parameter::Dry));
    assert_eq!(parameter_for("bc"), None);
    assert_eq!(parameter_for("soft"), None);
    assert_eq!(algorithm_for("bit"), Some(DistortionType::BitCrusher));
    assert_eq!(algorithm_for("bc"), None);
    assert_eq!(algorithm_for("w"), None);
}

#[test]
fn amounts_count_in_halves() {
    assert_eq!(Amount::Zero.halves(), 0);
    assert_eq!(Amount::Half.halves(), 1);
    assert_eq!(Amount::Full.halves(), 2);
    assert_eq!(f64::from(Amount::Half.halves()) / 2.0, 0.5);
    assert_eq!(f64::from(Amount::Full.halves()) / 2.0, 1.0);
}
