use rust_cast::payload::media::{
    GetStatusOptions, IdleReason, ItemId, MediaCommands, MediaCommandsObject, MetadataType, PlayerState,
    RepeatMode, ResumeState, TextTrackEdgeType, TextTrackWindowType, TrackId, TrackIdError,
    pushed_track_id,
};

const EMPTY_MEDIA_COMMANDS_OBJECT: MediaCommandsObject = MediaCommandsObject {
    pause: false,
    seek: false,
    stream_volume: false,
    stream_mute: false,
    skip_forward: false,
    skip_backward: false,
    as_bitfield: 0_u32,
};

#[test]
fn media_commands_round_trip() {
    fn case(label: &str, expected: MediaCommandsObject) {
        let input: u32 = expected.as_bitfield;
        let bitfield = MediaCommands::from(input);
        let output = MediaCommandsObject::from(input);
        let round_trip: u32 = output.as_bitfield;

        let description = format!(
            "case {label:?}:\n\
             _ input       = {input}_u32\n\
             _ input (hex) = {input:#x}\n\
             _ input (bin) = {input:#b}\n\
             _ round_trip  = {round_trip}_u32\n\
             _ bitfield    = {bitfield:#?}\n\
             _ output      = {output:#?}\n\
             _ expected    = {expected:#?}\n\n\n"
        );

        println!("{description}");

        assert_eq!(input, round_trip, "{description}");
        assert_eq!(output, expected, "{description}");
    }

    case("empty", EMPTY_MEDIA_COMMANDS_OBJECT);

    case("single bit - pause",
         MediaCommandsObject { pause: true, as_bitfield: 1, ..EMPTY_MEDIA_COMMANDS_OBJECT });

    case("single bit - seek",
         MediaCommandsObject { seek: true, as_bitfield: 2, ..EMPTY_MEDIA_COMMANDS_OBJECT });

    case("single bit - stream_volume",
         MediaCommandsObject { stream_volume: true, as_bitfield: 4, ..EMPTY_MEDIA_COMMANDS_OBJECT });

    case("single bit - stream_mute",
         MediaCommandsObject { stream_mute: true, as_bitfield: 8, ..EMPTY_MEDIA_COMMANDS_OBJECT });

    case("single bit - skip_forward",
         MediaCommandsObject { skip_forward: true, as_bitfield: 16, ..EMPTY_MEDIA_COMMANDS_OBJECT });

    case("single bit - skip_backward",
         MediaCommandsObject { skip_backward: true, as_bitfield: 32, ..EMPTY_MEDIA_COMMANDS_OBJECT });

    case("combination - pre-recorded video",
         MediaCommandsObject {
             pause: true,
             seek: true,
             skip_forward: true,
             skip_backward: true,
             as_bitfield: 0b110011,
             ..EMPTY_MEDIA_COMMANDS_OBJECT
         });

    case("unknown bits, otherwise empty",
         MediaCommandsObject { as_bitfield: 0b1111_1111_1100_0000, ..EMPTY_MEDIA_COMMANDS_OBJECT });

    case("known and unknown bits",
         MediaCommandsObject {
             pause: true,
             seek: true,
             as_bitfield: 0b1111_1111_1100_0011,
             ..EMPTY_MEDIA_COMMANDS_OBJECT
         });
}

#[test]
#[allow(non_snake_case)]
fn serde_GetStatusOptions() {
    fn case(opts: GetStatusOptions, expected_as_u8: u8) {
        let as_u8 = u8::from(opts);
        let as_json = serde_json::to_string(&as_u8).unwrap();
        let from_json: GetStatusOptions =
            GetStatusOptions::from(serde_json::from_str::<u8>(&as_json).unwrap());
        let from_json_as_u8 = u8::from(from_json);

        let msg = format!(
            "opts            = {opts:?}\n\
             expected_as_u8  = {expected_as_u8}\n\
             as_u8           = {as_u8}\n\
             as_json         = {as_json:?}\n\
             from_json       = {from_json:?}\n\
             from_json_as_u8 = {from_json_as_u8}"
        );

        println!("serde_GetStatusOptions case\n{msg}\n");

        assert_eq!(as_u8, expected_as_u8, "expected as u8\n{msg}");
        assert_eq!(as_u8, from_json_as_u8, "round trip through json as u8\n{msg}");
        assert_eq!(opts.no_metadata(), from_json.no_metadata(),
                   "no_metadata field through json\n{msg}");
        assert_eq!(opts.no_queue_items(), from_json.no_queue_items(),
                   "no_queue_items field through json\n{msg}");
    }

    let default_opts = GetStatusOptions::default();

    case(default_opts, 0);
    case(default_opts.with_no_metadata(true), 1);
    case(default_opts.with_no_queue_items(true), 2);
    case(default_opts.with_no_metadata(true).with_no_queue_items(true), 3);
}

#[test]
fn get_status_options_clear_one_bit_keeps_the_others() {
    let opts = GetStatusOptions::from(0b1010_0011);
    let cleared = opts.with_no_metadata(false);
    assert_eq!(u8::from(cleared), 0b1010_0010);
    assert!(!cleared.no_metadata());
    assert!(cleared.no_queue_items());
}

#[test]
fn media_commands_getters() {
    let mc = MediaCommands::from(0b10_1010);
    assert!(!mc.pause());
    assert!(mc.seek());
    assert!(!mc.stream_volume());
    assert!(mc.stream_mute());
    assert!(!mc.skip_forward());
    assert!(mc.skip_backward());
    assert_eq!(u32::from(MediaCommands::new()), 0);
}

#[test]
fn wire_names_of_known_values() {
    assert_eq!(PlayerState::from_wire("PLAYING"), PlayerState::Playing);
    assert_eq!(PlayerState::Buffering.as_wire(), "BUFFERING");
    assert_eq!(IdleReason::from_wire("FINISHED"), IdleReason::Finished);
    assert_eq!(RepeatMode::from_wire("REPEAT_ALL_AND_SHUFFLE"), RepeatMode::AllAndShuffle);
    assert_eq!(RepeatMode::Off.as_wire(), "REPEAT_OFF");
    assert_eq!(TextTrackEdgeType::from_wire("NONE"), TextTrackEdgeType::NoEdge);
    assert_eq!(TextTrackWindowType::RoundedCorners.as_wire(), "ROUNDED_CORNERS");
    assert_eq!(ResumeState::from_wire("PLAYBACK_START"), Some(ResumeState::Start));
    assert_eq!(ResumeState::from_wire("START"), None);
    assert_eq!(ResumeState::Pause.as_wire(), "PLAYBACK_PAUSE");
}

#[test]
fn wire_names_of_unknown_values_are_kept() {
    let r = PlayerState::from_wire("SLEEPING");
    assert_eq!(r, PlayerState::Unknown("SLEEPING".to_string()));
    assert_eq!(r.as_wire(), "SLEEPING");
    // An unknown value carrying a known name reads back as the known value.
    let odd = IdleReason::Unknown("ERROR".to_string());
    assert_eq!(IdleReason::from_wire(&odd.as_wire()), IdleReason::Error);
}

#[test]
fn metadata_type_integers() {
    assert_eq!(MetadataType::from(0), MetadataType::Generic);
    assert_eq!(MetadataType::from(3), MetadataType::MusicTrack);
    assert_eq!(MetadataType::from(5), MetadataType::Unknown(5));
    assert_eq!(i32::from(MetadataType::Photo), 4);
    assert_eq!(i32::from(MetadataType::Unknown(-2)), -2);
    assert_eq!(MetadataType::default(), MetadataType::Generic);
}

#[test]
fn first_track_keeps_its_id_or_gets_the_first() {
    assert_eq!(pushed_track_id(&None, None), Ok(TrackId(1)));
    assert_eq!(pushed_track_id(&None, Some(TrackId(9))), Ok(TrackId(9)));
    assert_eq!(TrackId::first(), TrackId(TrackId::FIRST_I32));
}

#[test]
fn later_track_gets_the_id_after_the_largest() {
    let ids = Some(vec![Some(TrackId(3)), None, Some(TrackId(7)), Some(TrackId(-4))]);
    assert_eq!(pushed_track_id(&ids, Some(TrackId(2))), Ok(TrackId(8)));
    let no_ids = Some(vec![None, None]);
    assert_eq!(pushed_track_id(&no_ids, None), Ok(TrackId(1)));
    let negative = Some(vec![Some(TrackId(-5))]);
    assert_eq!(pushed_track_id(&negative, None), Ok(TrackId(-4)));
}

#[test]
fn track_id_overflow_is_an_error() {
    let ids = Some(vec![Some(TrackId(i32::MAX))]);
    assert_eq!(pushed_track_id(&ids, None), Err(TrackIdError::Overflow));
}

#[test]
fn ids_read_from_text() {
    assert_eq!("42".parse::<ItemId>().unwrap(), ItemId(42));
    assert_eq!("-7".parse::<TrackId>().unwrap(), TrackId(-7));
    assert_eq!("+3".parse::<TrackId>().unwrap(), TrackId(3));
    assert!("".parse::<ItemId>().is_err());
    assert!("-".parse::<ItemId>().is_err());
    assert!("4x".parse::<ItemId>().is_err());
    assert!("2147483648".parse::<ItemId>().is_err());
    assert_eq!("-2147483648".parse::<ItemId>().unwrap(), ItemId(i32::MIN));
}
