use openwire::mixer::{MixerBus, MixerCommand, PlayRequest, Segment};

fn play(pad_id: usize, len: usize, looping: bool) -> MixerCommand<&'static str> {
    MixerCommand::Play(PlayRequest { pad_id, samples: "s", len, looping })
}

/// Mixes the plan into a block, as the audio side does, with each voice's
/// sample `i` worth `i + 1`.
fn mix(bus: &MixerBus<&'static str>, plan: &[Segment], frames: usize) -> Vec<usize> {
    let mut out = vec![0usize; frames];
    for seg in plan {
        assert!(seg.voice < bus.len());
        for j in 0..seg.len {
            out[seg.dst + j] += seg.src + j + 1;
        }
    }
    out
}

#[test]
fn one_shot_plays_to_end_then_retires() {
    let mut bus = MixerBus::new();
    assert_eq!(bus.poll_commands(vec![play(1, 5, false)]), 1);
    let mut plan = Vec::new();
    assert!(bus.render(3, &mut plan));
    assert_eq!(mix(&bus, &plan, 3), vec![1, 2, 3]);
    assert_eq!(bus.retire_finished(), 1);
    assert!(bus.render(4, &mut plan));
    assert_eq!(mix(&bus, &plan, 4), vec![4, 5, 0, 0]);
    assert_eq!(bus.retire_finished(), 0);
    assert!(!bus.render(4, &mut plan));
    assert!(plan.is_empty());
}

#[test]
fn looping_voice_wraps() {
    let mut bus = MixerBus::new();
    bus.poll_commands(vec![play(7, 3, true)]);
    let mut plan = Vec::new();
    assert!(bus.render(8, &mut plan));
    assert_eq!(mix(&bus, &plan, 8), vec![1, 2, 3, 1, 2, 3, 1, 2]);
    assert_eq!(bus.voice(0).pos, 2);
    bus.render(4, &mut plan);
    assert_eq!(mix(&bus, &plan, 4), vec![3, 1, 2, 3]);
    assert_eq!(bus.voice(0).pos, 3);
    assert_eq!(bus.retire_finished(), 1);
}

#[test]
fn block_split_is_inaudible() {
    let mut whole = MixerBus::new();
    whole.poll_commands(vec![play(1, 7, true), play(2, 5, false)]);
    let mut split = MixerBus::new();
    split.poll_commands(vec![play(1, 7, true), play(2, 5, false)]);
    let mut plan = Vec::new();
    whole.render(10, &mut plan);
    let one = mix(&whole, &plan, 10);
    split.render(4, &mut plan);
    let mut two = mix(&split, &plan, 4);
    split.render(6, &mut plan);
    two.extend(mix(&split, &plan, 6));
    assert_eq!(one, two);
}

#[test]
fn play_replaces_voice_of_same_pad() {
    let mut bus = MixerBus::new();
    bus.poll_commands(vec![play(1, 10, false), play(2, 10, false)]);
    let mut plan = Vec::new();
    bus.render(4, &mut plan);
    assert_eq!(bus.poll_commands(vec![play(1, 6, true)]), 2);
    assert_eq!(bus.voice(0).pad_id, 2);
    assert_eq!(bus.voice(0).pos, 4);
    assert_eq!(bus.voice(1).pad_id, 1);
    assert_eq!(bus.voice(1).pos, 0);
    assert!(bus.voice(1).looping);
}

#[test]
fn stop_commands_remove_voices() {
    let mut bus = MixerBus::new();
    assert_eq!(
        bus.poll_commands(vec![play(1, 4, false), play(2, 4, true), play(3, 4, false), MixerCommand::StopPad(2)]),
        2
    );
    assert_eq!(bus.voice(0).pad_id, 1);
    assert_eq!(bus.voice(1).pad_id, 3);
    assert_eq!(bus.poll_commands(vec![MixerCommand::StopAll, play(4, 1, false)]), 1);
    assert_eq!(bus.poll_commands(vec![MixerCommand::StopPad(42)]), 1);
}

#[test]
fn empty_sound_is_skipped() {
    let mut bus = MixerBus::new();
    bus.poll_commands(vec![play(1, 0, true)]);
    let mut plan = Vec::new();
    assert!(!bus.render(16, &mut plan));
    assert!(plan.is_empty());
    assert_eq!(bus.retire_finished(), 1);
    bus.poll_commands(vec![play(2, 0, false)]);
    assert_eq!(bus.retire_finished(), 1);
}

#[test]
fn zero_frame_block_moves_nothing() {
    let mut bus = MixerBus::new();
    bus.poll_commands(vec![play(1, 3, true)]);
    let mut plan = vec![Segment { voice: 9, src: 9, dst: 9, len: 9 }];
    assert!(!bus.render(0, &mut plan));
    assert!(plan.is_empty());
    assert_eq!(bus.voice(0).pos, 0);
}

#[test]
fn pads_never_hold_two_voices() {
    let mut bus = MixerBus::new();
    bus.poll_commands(vec![play(1, 3, true), play(2, 2, false), play(1, 5, false), play(1, 4, true)]);
    let mut plan = Vec::new();
    for _ in 0..3 {
        bus.render(2, &mut plan);
        bus.retire_finished();
        bus.poll_commands(vec![play(2, 2, false), play(1, 4, true)]);
        let ids: Vec<usize> = (0..bus.len()).map(|i| bus.voice(i).pad_id).collect();
        let mut sorted = ids.clone();
        sorted.sort();
        sorted.dedup();
        assert_eq!(sorted.len(), ids.len());
    }
}
