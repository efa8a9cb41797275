use std::cell::RefCell;
use std::rc::Rc;

use megamorse::MorseCode;
use megamorse::MorseDecoder;
use megamorse::MorsePlayer;
use megamorse::MorsePlayerError;
use megamorse::MorseWord;

/// Records every pulse as (is_on, time_units) in a shared log.
struct RecordingDecoder {
    log: Rc<RefCell<Vec<(bool, usize)>>>,
}

impl MorseDecoder for RecordingDecoder {
    type Error = ();

    fn on(&mut self, timeunits: usize) -> Result<(), ()> {
        self.log.borrow_mut().push((true, timeunits));
        Ok(())
    }

    fn off(&mut self, timeunits: usize) -> Result<(), ()> {
        self.log.borrow_mut().push((false, timeunits));
        Ok(())
    }
}

/// Succeeds for a budget of pulses, then fails with its numbered error.
struct FailingDecoder {
    budget: usize,
    emitted: usize,
}

impl MorseDecoder for FailingDecoder {
    type Error = u32;

    fn on(&mut self, _timeunits: usize) -> Result<(), u32> {
        if self.emitted >= self.budget {
            return Err(41);
        }
        self.emitted += 1;
        Ok(())
    }

    fn off(&mut self, _timeunits: usize) -> Result<(), u32> {
        if self.emitted >= self.budget {
            return Err(42);
        }
        self.emitted += 1;
        Ok(())
    }
}

fn recorded_play(source: &str) -> (Result<(), MorsePlayerError<()>>, Vec<(bool, usize)>) {
    let log = Rc::new(RefCell::new(Vec::new()));
    let mut player = MorsePlayer::new(RecordingDecoder { log: Rc::clone(&log) });
    let result = player.play_str(source);
    let pulses = log.borrow().clone();
    (result, pulses)
}

const SOS_PULSES: [(bool, usize); 17] = [
    (true, 1),
    (false, 1),
    (true, 1),
    (false, 1),
    (true, 1),
    (false, 3),
    (true, 3),
    (false, 1),
    (true, 3),
    (false, 1),
    (true, 3),
    (false, 3),
    (true, 1),
    (false, 1),
    (true, 1),
    (false, 1),
    (true, 1),
];

#[test]
fn play_text_sos_emits_exact_pulse_train() {
    let (result, pulses) = recorded_play("SOS");
    assert!(result.is_ok());
    assert_eq!(pulses, SOS_PULSES.to_vec());
}

#[test]
fn play_text_two_words_gives_one_inter_word_gap() {
    let (result, pulses) = recorded_play("SOS SOS");
    assert!(result.is_ok());
    let mut expected = SOS_PULSES.to_vec();
    expected.push((false, 7));
    expected.extend_from_slice(&SOS_PULSES);
    assert_eq!(pulses, expected);
    let gaps = pulses.iter().filter(|p| **p == (false, 7)).count();
    assert_eq!(gaps, 1);
}

#[test]
fn play_text_a1_concatenates_with_gap_rules() {
    let (result, pulses) = recorded_play("a1");
    assert!(result.is_ok());
    let expected = vec![
        (true, 1),
        (false, 1),
        (true, 3),
        (false, 3),
        (true, 1),
        (false, 1),
        (true, 3),
        (false, 1),
        (true, 3),
        (false, 1),
        (true, 3),
        (false, 1),
        (true, 3),
    ];
    assert_eq!(pulses, expected);
}

#[test]
fn play_text_aborts_at_first_unrepresentable_character() {
    let (result, pulses) = recorded_play("Hi!");
    assert!(matches!(result, Err(MorsePlayerError::InvalidCharacter)));
    let expected = vec![
        // H = ....
        (true, 1),
        (false, 1),
        (true, 1),
        (false, 1),
        (true, 1),
        (false, 1),
        (true, 1),
        // inter-character gap
        (false, 3),
        // i = ..
        (true, 1),
        (false, 1),
        (true, 1),
        // gap owed before the character that then fails
        (false, 3),
    ];
    assert_eq!(pulses, expected);
}

#[test]
fn whitespace_runs_and_edges_add_no_pulses() {
    let plain = recorded_play("SOS").1;
    assert_eq!(recorded_play("  SOS  ").1, plain);
    assert_eq!(recorded_play("\tSOS\n").1, plain);
    let two = recorded_play("SOS SOS").1;
    assert_eq!(recorded_play(" SOS \n  SOS ").1, two);
}

#[test]
fn empty_and_blank_text_play_nothing() {
    let (result, pulses) = recorded_play("");
    assert!(result.is_ok());
    assert!(pulses.is_empty());
    let (result, pulses) = recorded_play("   \t\n");
    assert!(result.is_ok());
    assert!(pulses.is_empty());
}

#[test]
fn play_word_emits_no_boundary_gaps() {
    let log = Rc::new(RefCell::new(Vec::new()));
    let mut player = MorsePlayer::new(RecordingDecoder { log: Rc::clone(&log) });
    let word = MorseWord::new([MorseCode::Dot, MorseCode::Dash]);
    assert!(player.play_word(word).is_ok());
    assert_eq!(*log.borrow(), vec![(true, 1), (false, 1), (true, 3)]);
}

#[test]
fn play_word_from_lookup_matches_play_text_of_one_character() {
    let log = Rc::new(RefCell::new(Vec::new()));
    let mut player = MorsePlayer::new(RecordingDecoder { log: Rc::clone(&log) });
    let word = MorseWord::try_from_char('q').unwrap();
    assert!(player.play_word(word).is_ok());
    let via_word = log.borrow().clone();
    assert_eq!(recorded_play("q").1, via_word);
}

#[test]
fn decoder_error_converts_to_player_error() {
    let wrapped: MorsePlayerError<u32> = MorsePlayerError::from(7u32);
    assert!(matches!(wrapped, MorsePlayerError::DecoderError(7)));
}

#[test]
fn decoder_error_aborts_and_comes_back_unchanged() {
    let mut player = MorsePlayer::new(FailingDecoder { budget: 0, emitted: 0 });
    assert!(matches!(player.play_str("SOS"), Err(MorsePlayerError::DecoderError(41))));

    let mut player = MorsePlayer::new(FailingDecoder { budget: 5, emitted: 0 });
    assert!(matches!(player.play_str("SOS"), Err(MorsePlayerError::DecoderError(42))));

    let mut player = MorsePlayer::new(FailingDecoder { budget: 1000, emitted: 0 });
    assert!(player.play_str("SOS").is_ok());
}
