use anidb_udp::auth::AuthRequest;
use anidb_udp::errors::AniDbError;
use anidb_udp::anime::AnimeRequest;
use anidb_udp::anime::AnimeRequestFields;
use anidb_udp::anime::AnimeResponse;
use anidb_udp::file_lookup::AnimeMask;
use anidb_udp::file_lookup::FileMask;
use anidb_udp::file_lookup::FileRequest;
use anidb_udp::file_lookup::FileRequestError;
use anidb_udp::file_lookup::FileResponse;
use anidb_udp::anime::AnimeRequestError;
use anidb_udp::mask::FieldDecoder;
use anidb_udp::types::EpNo;
use anidb_udp::strutil;
use anidb_udp::wire::InboundBuffer;
use anidb_udp::wire::build_wire_line;
use anidb_udp::wire::parse_inbound;
use anidb_udp::engine::SessionAction;
use anidb_udp::engine::DispatchPlan;

#[test]
fn reassembles_split_inbound_message() {
    let mut buf = InboundBuffer::new();
    assert!(buf.push_read(b"t5 230").is_none());
    let whole = buf.push_read(b" report\ndata\n").expect("message complete");
    assert_eq!(whole, b"t5 230 report\ndata\n".to_vec());
    let text = String::from_utf8(whole).unwrap();
    let (tag, code, reply, body) = parse_inbound(&text).expect("well-formed");
    assert_eq!(tag, "t5");
    assert_eq!(code, "230");
    assert_eq!(reply, "report");
    assert_eq!(body, "data\n");
}

#[test]
fn malformed_inbound_message_is_refused() {
    assert!(parse_inbound("t5 230").is_none());
    assert!(parse_inbound("t5").is_none());
    assert!(parse_inbound("t5 230 reply-without-newline").is_none());
}

#[test]
fn unknown_code_maps_to_catch_all_with_verbatim_text() {
    let e = AniDbError::from_code("799", "WEIRD REPLY");
    assert_eq!(e, AniDbError::UnknownError("799 WEIRD REPLY".to_string()));
}

#[test]
fn known_codes_map_to_their_kinds() {
    assert_eq!(AniDbError::from_code("500", "x"), AniDbError::LoginFailed);
    assert_eq!(AniDbError::from_code("506", "x"), AniDbError::InvalidSession);
    assert_eq!(
        AniDbError::from_code("555", "you did a bad"),
        AniDbError::Banned("you did a bad".to_string())
    );
    assert_eq!(AniDbError::from_code("604", "x"), AniDbError::Timeout);
}

#[test]
fn auth_success_without_nat() {
    let req = AuthRequest::new("u".into(), "p".into(), "client".into(), 1);
    let resp = req.decode_response("200", "abc123", "").expect("decodes");
    assert_eq!(resp.session_id, "abc123");
    assert!(!resp.new_version_available);
    assert!(resp.nat.is_none());
}

#[test]
fn auth_success_with_new_version_flag() {
    let req = AuthRequest::new("u".into(), "p".into(), "client".into(), 1);
    let resp = req.decode_response("201", "sess42 extra", "").expect("decodes");
    assert_eq!(resp.session_id, "sess42");
    assert!(resp.new_version_available);
}

#[test]
fn auth_with_nat_parses_address() {
    let mut req = AuthRequest::new("u".into(), "p".into(), "client".into(), 1);
    req.nat = Some(true);
    let resp = req.decode_response("200", "sess 1.2.3.4:9000", "").expect("decodes");
    assert_eq!(resp.session_id, "sess");
    assert_eq!(resp.nat, Some(("1.2.3.4".to_string(), 9000)));
}

#[test]
fn auth_with_nat_refuses_continuation_marker() {
    let mut req = AuthRequest::new("u".into(), "p".into(), "client".into(), 1);
    req.nat = Some(true);
    let r = req.decode_response("200", "sess LOGIN ACCEPTED", "");
    assert!(matches!(r, Err(AniDbError::DecodeError(_))));
}

#[test]
fn auth_error_code_goes_through_taxonomy() {
    let req = AuthRequest::new("u".into(), "p".into(), "client".into(), 1);
    let r = req.decode_response("500", "LOGIN FAILED", "");
    assert!(matches!(r, Err(AniDbError::LoginFailed)));
}

#[test]
fn category_list_token_decodes_to_list() {
    let v = <Vec<String> as FieldDecoder>::decode_field("themes,original work,novel").unwrap();
    assert_eq!(v, vec!["themes", "original work", "novel"]);
}

#[test]
fn integer_tokens_decode_with_range_checks() {
    assert_eq!(<i32 as FieldDecoder>::decode_field("15456").unwrap(), 15456);
    assert_eq!(<i32 as FieldDecoder>::decode_field("-7").unwrap(), -7);
    assert!(<i32 as FieldDecoder>::decode_field("2147483648").is_err());
    assert!(<i32 as FieldDecoder>::decode_field("").is_err());
    assert!(<i16 as FieldDecoder>::decode_field("40000").is_err());
    assert_eq!(<i64 as FieldDecoder>::decode_field("9223372036854775807").unwrap(), i64::MAX);
}

#[test]
fn boolean_tokens_are_one_or_zero() {
    assert!(<bool as FieldDecoder>::decode_field("1").unwrap());
    assert!(!<bool as FieldDecoder>::decode_field("0").unwrap());
    assert!(!<bool as FieldDecoder>::decode_field("2").unwrap());
    assert!(<bool as FieldDecoder>::decode_field("x").is_err());
}

#[test]
fn episode_numbers_carry_their_kind() {
    let e = <EpNo as FieldDecoder>::decode_field("S5").unwrap();
    assert!(matches!(e, EpNo::Special(5)));
    assert_eq!(e.epno(), 5);
    let r = <EpNo as FieldDecoder>::decode_field("12").unwrap();
    assert!(matches!(r, EpNo::Regular(12)));
    assert!(<EpNo as FieldDecoder>::decode_field("S").is_err());
}

#[test]
fn mask_presence_follows_population() {
    let mut rec = AnimeResponse::default();
    rec.aid = Some(15456);
    rec.category_list = Some(vec!["themes".to_string()]);
    let m = rec.present_fields();
    assert!(m.aid);
    assert!(m.category_list);
    assert!(!m.year);
    assert_eq!(
        AnimeResponse::default().present_fields(),
        AnimeRequestFields::none()
    );
}

#[test]
fn mask_all_and_none_toggle_every_field() {
    let a = AnimeRequestFields::all();
    assert!(a.aid && a.category_list && a.parody_count);
    let n = FileMask::none();
    assert!(!n.aid && !n.anidb_file_name);
}

#[test]
fn request_constructors_keep_their_arguments() {
    let r = AnimeRequest::from_anime_id(15456, None);
    assert!(matches!(r, AnimeRequest::Aid(15456, None)));
    let r = AnimeRequest::from_anime_name("slime", Some(AnimeRequestFields::none()));
    match r {
        AnimeRequest::Aname(n, Some(_)) => assert_eq!(n, "slime"),
        _ => panic!("wrong shape"),
    }
    assert_eq!(AnimeRequest::name(), "ANIME");
    assert!(AnimeRequest::requires_login());
    assert!(!AuthRequest::requires_login());
}

#[test]
fn wire_line_layout() {
    let line = build_wire_line("ANIME", "aid=15456", "t3", None);
    assert_eq!(line, "ANIME aid=15456&tag=t3");
    let line = build_wire_line("ANIME", "aid=15456", "t4", Some("sess"));
    assert_eq!(line, "ANIME aid=15456&tag=t4&s=sess");
}

#[test]
fn number_rendering_and_parsing_round_trip() {
    assert_eq!(strutil::u64_to_dec(0), "0");
    assert_eq!(strutil::u64_to_dec(15456), "15456");
    assert_eq!(strutil::u64_to_hex(255), "ff");
    assert_eq!(strutil::i64_to_dec(-42), "-42");
    assert_eq!(strutil::parse_i64("15456"), Some(15456));
    assert_eq!(strutil::parse_i64("+7"), Some(7));
    assert_eq!(strutil::parse_i64("x"), None);
    assert_eq!(strutil::parse_u16("65535"), Some(65535));
    assert_eq!(strutil::parse_u16("65536"), None);
    assert_eq!(strutil::parse_u16("-1"), None);
}

#[test]
fn splitting_and_trimming() {
    assert_eq!(strutil::split_str("a|b||c", '|'), vec!["a", "b", "", "c"]);
    assert_eq!(strutil::split_str("", '|'), vec![""]);
    let (h, t) = strutil::split_once_ch("code rest of it", ' ');
    assert_eq!(h, "code");
    assert_eq!(t.as_deref(), Some("rest of it"));
    assert_eq!(strutil::trim_str("  data\n"), "data");
}

#[test]
fn cache_hit_produces_no_outbound_traffic() {
    let mut core = anidb_udp::engine::ClientCore::new();
    let plan = core.plan_request("ANIME", "aid=1", true, true);
    assert!(matches!(plan, anidb_udp::engine::DispatchPlan::UseCached));
    // no tag was allocated and no line was built
    assert_eq!(core.next_id, 0);
    let tag = core.next_tag();
    assert_eq!(tag, "t0");
}

#[test]
fn session_establishment_is_single_flight() {
    let mut core = anidb_udp::engine::ClientCore::new();
    // the first caller is told to authenticate and claims the slot
    assert!(matches!(core.session_action(), SessionAction::MustAuthenticate));
    // a concurrent caller waits instead of authenticating again
    assert!(matches!(core.session_action(), SessionAction::Wait));
    core.finish_login("abc123".to_string());
    // every later caller reads the same id
    match core.session_action() {
        SessionAction::UseSession(s) => assert_eq!(s, "abc123"),
        _ => panic!("expected the established session"),
    }
    match core.session_action() {
        SessionAction::UseSession(s) => assert_eq!(s, "abc123"),
        _ => panic!("expected the established session"),
    }
}

#[test]
fn pacing_starts_after_the_fifth_datagram() {
    let mut core = anidb_udp::engine::ClientCore::new();
    // the counter is primed at one for the login datagram
    assert!(!core.record_send()); // 2
    assert!(!core.record_send()); // 3
    assert!(!core.record_send()); // 4
    assert!(!core.record_send()); // 5
    assert!(core.record_send()); // 6: delay from here on
    assert!(core.record_send());
}

#[test]
fn dispatch_builds_the_wire_line_under_a_fresh_tag() {
    let mut core = anidb_udp::engine::ClientCore::new();
    match core.plan_request("AUTH", "user=u&pass=p", false, false) {
        DispatchPlan::SendLine(line, tag) => {
            assert_eq!(tag, "t0");
            assert_eq!(line, "AUTH user=u&pass=p&tag=t0");
        },
        _ => panic!("expected a line to send"),
    }
    assert!(matches!(
        core.plan_request("ANIME", "aid=1", true, false),
        DispatchPlan::NeedSession
    ));
    assert!(matches!(core.session_action(), anidb_udp::engine::SessionAction::MustAuthenticate));
    core.finish_login("sess".to_string());
    match core.plan_request("ANIME", "aid=1", true, false) {
        DispatchPlan::SendLine(line, tag) => {
            assert_eq!(tag, "t1");
            assert_eq!(line, "ANIME aid=1&tag=t1&s=sess");
        },
        _ => panic!("expected a line to send"),
    }
}

#[test]
fn category_list_mask_decodes_the_scenario_record() {
    // the record body carries the id and the category list, so the
    // mask selects exactly those two fields
    let mut mask = AnimeRequestFields::none();
    mask.aid = true;
    mask.category_list = true;
    let req = AnimeRequest::from_anime_id(15456, Some(mask));
    let rec = req.decode_line("15456|themes,original work,novel").expect("decodes");
    assert_eq!(rec.aid, Some(15456));
    assert_eq!(
        rec.category_list,
        Some(vec!["themes".to_string(), "original work".to_string(), "novel".to_string()])
    );
    assert_eq!(rec.year, None);
    assert_eq!(rec.romaji_name, None);
    assert_eq!(rec.episodes, None);
    // re-deriving which fields are populated gives back the mask
    assert_eq!(rec.present_fields(), mask);
}

#[test]
fn batch_decode_skips_blank_lines_and_aborts_on_a_bad_record() {
    let mut mask = AnimeRequestFields::none();
    mask.aid = true;
    let req = AnimeRequest::from_anime_id(1, Some(mask));
    let v = req.decode_response("230", "ANIME", "1\n\n2\n").expect("decodes");
    assert_eq!(v.len(), 2);
    assert_eq!(v[0].aid, Some(1));
    assert_eq!(v[1].aid, Some(2));
    let r = req.decode_response("230", "ANIME", "1\nnot-a-number\n");
    assert!(matches!(r, Err(AnimeRequestError::AniDbError(AniDbError::DecodeError(_)))));
    let r = req.decode_response("330", "NO SUCH ANIME", "");
    assert!(matches!(r, Err(AnimeRequestError::NoSuchAnime)));
    let r = req.decode_response("598", "UNKNOWN COMMAND", "");
    assert!(matches!(
        r,
        Err(AnimeRequestError::AniDbError(AniDbError::UnknownCommand))
    ));
}

#[test]
fn no_such_file_code_yields_the_command_specific_error() {
    let req = FileRequest::Fid(1, None, None);
    let r = req.decode_response("320", "NO SUCH FILE", "");
    assert!(matches!(r, Err(FileRequestError::NoSuchFile)));
    // and not the generic catch-all of the shared taxonomy
    let r = req.decode_response("799", "WEIRD", "");
    assert!(matches!(
        r,
        Err(FileRequestError::AniDbError(AniDbError::UnknownError(_)))
    ));
}

#[test]
fn file_legacy_layout_decodes_without_masks() {
    let req = FileRequest::Fid(1, None, None);
    let resp = req
        .decode_response("220", "FILE", "7|100|200|3|1024|deadbeef|name.mkv\n")
        .expect("decodes");
    match resp {
        FileResponse::File(fid, Some(rec), None) => {
            assert_eq!(fid, 7);
            assert_eq!(rec.aid, Some(100));
            assert_eq!(rec.gid, Some(200));
            assert_eq!(rec.state, Some(3));
            assert_eq!(rec.size, Some(1024));
            assert_eq!(rec.ed2k.as_deref(), Some("deadbeef"));
            assert_eq!(rec.anidb_file_name.as_deref(), Some("name.mkv"));
            assert_eq!(rec.eid, None);
        },
        _ => panic!("wrong shape"),
    }
}

#[test]
fn file_masks_share_one_token_position() {
    let mut fm = FileMask::none();
    fm.size = true;
    let mut am = AnimeMask::none();
    am.year = true;
    let req = FileRequest::Fid(1, Some(fm), Some(am));
    let resp = req.decode_response("220", "FILE", "7|1024|2021-2021\n").expect("decodes");
    match resp {
        FileResponse::File(fid, Some(frec), Some(arec)) => {
            assert_eq!(fid, 7);
            assert_eq!(frec.size, Some(1024));
            assert_eq!(arec.year.as_deref(), Some("2021-2021"));
        },
        _ => panic!("wrong shape"),
    }
}

#[test]
fn multiple_files_code_yields_the_raw_ids() {
    let req = FileRequest::Fid(1, None, None);
    let resp = req.decode_response("322", "MULTIPLE FILES FOUND", "1|2|3").expect("decodes");
    match resp {
        FileResponse::MultipleFiles(v) => assert_eq!(v, vec![1, 2, 3]),
        _ => panic!("wrong shape"),
    }
    let r = req.decode_response("322", "MULTIPLE FILES FOUND", "1|x|3");
    assert!(matches!(r, Err(FileRequestError::AniDbError(AniDbError::DecodeError(_)))));
}

#[test]
fn requests_encode_to_their_query_strings() {
    let auth = AuthRequest::new("u".into(), "p".into(), "client".into(), 1);
    assert_eq!(
        auth.encode().unwrap(),
        "user=u&pass=p&protover=3&client=client&clientver=1&enc=UTF8"
    );
    let mut auth = AuthRequest::new("u".into(), "p w".into(), "client".into(), 1);
    auth.nat = Some(true);
    assert_eq!(
        auth.encode().unwrap(),
        "user=u&pass=p+w&protover=3&client=client&clientver=1&nat=1&enc=UTF8"
    );

    let mut mask = AnimeRequestFields::none();
    mask.aid = true;
    mask.category_list = true;
    let req = AnimeRequest::from_anime_id(15456, Some(mask));
    assert_eq!(req.encode().unwrap(), "aid=15456&amask=82000000000000");
    let req = AnimeRequest::from_anime_name("a name", None);
    assert_eq!(req.encode().unwrap(), "aname=a+name");

    let req = FileRequest::Fid(7, Some(FileMask::none()), None);
    assert_eq!(req.encode().unwrap(), "fid=7&fmask=0000000000&amask=00000000");
    let mut am = AnimeMask::none();
    am.epno = true;
    let req = FileRequest::SizeEd2k(1024, "deadbeef".to_string(), None, Some(am));
    assert_eq!(
        req.encode().unwrap(),
        "size=1024&ed2k=deadbeef&fmask=0000000000&amask=00008000"
    );
}

#[test]
fn full_masks_serialize_every_group_bit() {
    let m = AnimeRequestFields::all();
    assert_eq!(m.hex_param(), "fefcfeff7f80f8");
    let m = FileMask::all();
    assert_eq!(m.hex_param(), "7ffafff9fe");
}

#[test]
fn content_hashes_match_known_digests() {
    // one empty chunk
    let (h, n) = anidb_udp::hashes::ed2k_hash_bytes(&Vec::new());
    assert_eq!(h, "31d6cfe0d16ae931b73c59d7e0c089c0");
    assert_eq!(n, 0);
    // one short chunk
    let (h, n) = anidb_udp::hashes::ed2k_hash_bytes(&b"hello world".to_vec());
    assert_eq!(h, "aa010fbc1d14c795d86ef98c95479d17");
    assert_eq!(n, 11);
    // the standard checksum test vector
    let c = anidb_udp::hashes::crc32_hex_bytes(&b"123456789".to_vec());
    assert_eq!(c, "cbf43926");
}

#[test]
fn a_tag_is_completed_at_most_once() {
    let mut core = anidb_udp::engine::ClientCore::new();
    let tag = match core.plan_request("ANIME", "aid=1", false, false) {
        DispatchPlan::SendLine(_, tag) => tag,
        _ => panic!("expected a line to send"),
    };
    assert_eq!(tag, "t0");
    // the matching inbound reply claims the tag exactly once
    assert!(core.complete(&tag));
    assert!(!core.complete(&tag));
    // an orphaned reply finds nothing
    assert!(!core.complete("t7"));
}
