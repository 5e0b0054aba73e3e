use livestream_notifier::youtube::{select, Fields, MetadataError, YoutubeClient, VIDEOS_ENDPOINT};

const ANSWER: &str = r#"{
  "kind": "youtube#videoListResponse",
  "items": [
    {
      "id": "I9zWxlP1VAM",
      "snippet": {
        "title": "Karaoke",
        "description": "Singing \"songs\"",
        "channelId": "UCoSrY_IQQVpmIRZ9Xf-y93g",
        "channelTitle": "Gawr Gura Ch."
      },
      "liveStreamingDetails": { "scheduledStartTime": "2022-03-04T18:12:32Z" }
    },
    { "snippet": { "title": "second" } }
  ]
}"#;

fn without(part: &str) -> String {
    let cut = match part {
        "title" => r#""title": "Karaoke","#,
        "description" => r#""description": "Singing \"songs\"","#,
        "channelId" => r#""channelId": "UCoSrY_IQQVpmIRZ9Xf-y93g","#,
        other => panic!("{}", other),
    };
    assert!(ANSWER.contains(cut));
    ANSWER.replacen(cut, "", 1)
}

fn fields() -> Fields {
    Fields {
        has_items: true,
        has_first: true,
        has_snippet: true,
        title: Some("t".to_string()),
        description: Some("d".to_string()),
        channel_id: Some("c".to_string()),
        channel_title: Some("ct".to_string()),
        has_details: true,
        start: Some("2022-03-04T18:12:32Z".to_string()),
        start_instant: Some(1_646_417_552_000),
    }
}

#[test]
fn the_platform_is_asked_for_the_video() {
    assert_eq!(VIDEOS_ENDPOINT, "https://youtube.googleapis.com/youtube/v3/videos");
    let client = YoutubeClient::new("SECRET-REDACTED");
    assert_eq!(
        client.query("I9zWxlP1VAM"),
        vec![
            ("part".to_string(), "snippet,contentDetails,statistics,liveStreamingDetails".to_string()),
            ("id".to_string(), "I9zWxlP1VAM".to_string()),
            ("key".to_string(), "SECRET-REDACTED".to_string()),
        ]
    );
}

#[test]
fn metadata_is_read_from_the_first_item() {
    let metadata = YoutubeClient::get_video_metadata(ANSWER).unwrap();
    assert_eq!(metadata.title, "Karaoke");
    assert_eq!(metadata.description, "Singing \"songs\"");
    assert_eq!(metadata.channel_id, "UCoSrY_IQQVpmIRZ9Xf-y93g");
    assert_eq!(metadata.channel_title, "Gawr Gura Ch.");
    assert_eq!(metadata.livestream_start_dt, 1_646_417_552_000);
}

#[test]
fn what_is_not_json_is_refused() {
    assert_eq!(YoutubeClient::get_video_metadata("").unwrap_err(), MetadataError::InvalidJson);
    assert_eq!(YoutubeClient::get_video_metadata("<html>").unwrap_err(), MetadataError::InvalidJson);
    assert_eq!(YoutubeClient::get_video_metadata("{\"items\": [").unwrap_err(), MetadataError::InvalidJson);
}

#[test]
fn an_answer_without_items_is_refused() {
    for body in ["{}", "null", "[]", "7", r#"{"items": []}"#, r#"{"items": {}}"#, r#"{"items": "x"}"#, r#"[{"items": [1]}]"#] {
        assert_eq!(YoutubeClient::get_video_metadata(body).unwrap_err(), MetadataError::NoItems, "{}", body);
    }
}

#[test]
fn an_item_without_snippet_is_refused() {
    for body in [
        r#"{"items": [{}]}"#,
        r#"{"items": [null]}"#,
        r#"{"items": [[]]}"#,
        r#"{"items": [{"snippet": "x"}]}"#,
        r#"{"items": [{"snippet": []}]}"#,
        r#"{"items": [{"liveStreamingDetails": {}}, {"snippet": {}}]}"#,
    ] {
        assert_eq!(YoutubeClient::get_video_metadata(body).unwrap_err(), MetadataError::NoSnippet, "{}", body);
    }
}

#[test]
fn a_snippet_is_read_in_order() {
    assert_eq!(
        YoutubeClient::get_video_metadata(r#"{"items": [{"snippet": {}}]}"#).unwrap_err(),
        MetadataError::NoTitle
    );
    assert_eq!(YoutubeClient::get_video_metadata(&without("title")).unwrap_err(), MetadataError::NoTitle);
    assert_eq!(
        YoutubeClient::get_video_metadata(&without("description")).unwrap_err(),
        MetadataError::NoDescription
    );
    assert_eq!(YoutubeClient::get_video_metadata(&without("channelId")).unwrap_err(), MetadataError::NoChannelId);
    let body = ANSWER.replace(r#""channelTitle": "Gawr Gura Ch.""#, r#""channelTitle": 5"#);
    assert_eq!(YoutubeClient::get_video_metadata(&body).unwrap_err(), MetadataError::NoChannelTitle);
    let body = ANSWER.replace(r#""title": "Karaoke""#, r#""title": null"#);
    assert_eq!(YoutubeClient::get_video_metadata(&body).unwrap_err(), MetadataError::NoTitle);
}

#[test]
fn the_scheduled_start_is_needed() {
    let body = ANSWER.replace("liveStreamingDetails", "details");
    assert_eq!(YoutubeClient::get_video_metadata(&body).unwrap_err(), MetadataError::NoLiveStreamingDetails);
    let body = ANSWER.replace("scheduledStartTime", "actualStartTime");
    assert_eq!(YoutubeClient::get_video_metadata(&body).unwrap_err(), MetadataError::NoScheduledStartTime);
    let body = ANSWER.replace("\"2022-03-04T18:12:32Z\"", "1646417552");
    assert_eq!(YoutubeClient::get_video_metadata(&body).unwrap_err(), MetadataError::NoScheduledStartTime);
    let body = ANSWER.replace("2022-03-04T18:12:32Z", "2022-03-04 18:12");
    assert_eq!(YoutubeClient::get_video_metadata(&body).unwrap_err(), MetadataError::InvalidStartTime);
}

#[test]
fn the_scheduled_start_is_read_in_any_zone() {
    let body = ANSWER.replace("2022-03-04T18:12:32Z", "2022-03-05T03:12:32.5+09:00");
    assert_eq!(YoutubeClient::get_video_metadata(&body).unwrap().livestream_start_dt, 1_646_417_552_500);
}

#[test]
fn fields_that_are_there_make_the_metadata() {
    let metadata = select(fields()).unwrap();
    assert_eq!(metadata.title, "t");
    assert_eq!(metadata.description, "d");
    assert_eq!(metadata.channel_id, "c");
    assert_eq!(metadata.channel_title, "ct");
    assert_eq!(metadata.livestream_start_dt, 1_646_417_552_000);
}

#[test]
fn the_first_missing_field_is_named() {
    let broken: [(fn(&mut Fields), MetadataError); 10] = [
        (|f| f.has_items = false, MetadataError::NoItems),
        (|f| f.has_first = false, MetadataError::NoItems),
        (|f| f.has_snippet = false, MetadataError::NoSnippet),
        (|f| f.title = None, MetadataError::NoTitle),
        (|f| f.description = None, MetadataError::NoDescription),
        (|f| f.channel_id = None, MetadataError::NoChannelId),
        (|f| f.channel_title = None, MetadataError::NoChannelTitle),
        (|f| f.has_details = false, MetadataError::NoLiveStreamingDetails),
        (|f| f.start = None, MetadataError::NoScheduledStartTime),
        (|f| f.start_instant = None, MetadataError::InvalidStartTime),
    ];
    for (i, (spoil, expected)) in broken.iter().enumerate() {
        let mut f = fields();
        spoil(&mut f);
        assert_eq!(select(f).unwrap_err(), *expected);
        // with everything after it missing too, the first is still the one named
        let mut f = fields();
        for (later, _) in &broken[i..] {
            later(&mut f);
        }
        assert_eq!(select(f).unwrap_err(), *expected);
    }
}
