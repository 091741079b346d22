use deploy_badge::render::{
    badge_reply, color_for, health_reply, render_svg, root_reply, status_center,
    status_field_width, total_width,
};
use deploy_badge::upstream::UpstreamOutcome;

#[test]
fn color_table_is_exact() {
    assert_eq!(color_for("finished"), "#3fb950");
    assert_eq!(color_for("failed"), "#f85149");
    assert_eq!(color_for("in_progress"), "#2188ff");
    assert_eq!(color_for("queued"), "#6e7681");
    assert_eq!(color_for("no_history"), "#d1d5da");
}

#[test]
fn unrecognized_statuses_get_the_default_color() {
    assert_eq!(color_for(""), "#cea61b");
    assert_eq!(color_for("unauthorized"), "#cea61b");
    assert_eq!(color_for("offline"), "#cea61b");
    assert_eq!(color_for("parse_error"), "#cea61b");
    assert_eq!(color_for("FINISHED"), "#cea61b");
    assert_eq!(color_for("finished "), "#cea61b");
}

#[test]
fn widths_follow_the_status_length() {
    // 8 units per character, floor of 40; total adds the 50-unit label field.
    assert_eq!(status_field_width("finished"), 64);
    assert_eq!(total_width("finished"), 114);
    assert_eq!(status_center("finished"), 82);

    assert_eq!(status_field_width("ok"), 40);
    assert_eq!(total_width("ok"), 90);
    assert_eq!(status_center("ok"), 70);

    assert_eq!(status_field_width(""), 40);
    assert_eq!(status_field_width("exactly five more"), 8 * 17);
}

#[test]
fn rendered_svg_matches_the_template() {
    let status = "finished";
    let color = "#3fb950";
    let status_text_width = 64;
    let total_width = 114;
    let status_center_x = 82;
    let expected = format!(
        r##"<svg xmlns="http://www.w3.org/2000/svg" width="{total_width}" height="20">
            <linearGradient id="b" x2="0" y2="100%">
                <stop offset="0" stop-color="#bbb" stop-opacity=".1"/>
                <stop offset="1" stop-opacity=".1"/>
            </linearGradient>
            <mask id="a">
                <rect width="{total_width}" height="20" rx="3" fill="#fff"/>
            </mask>
            <g mask="url(#a)">
                <path fill="#555" d="M0 0h50v20H0z"/>
                <path fill="{color}" d="M50 0h{status_text_width}v20H50z"/>
                <path fill="url(#b)" d="M0 0h{total_width}v20H0z"/>
            </g>
            <g fill="#fff" text-anchor="middle" font-family="Verdana,DejaVu Sans,sans-serif" font-size="11">
                <text x="25" y="15" fill="#010101" fill-opacity=".3">deploy</text>
                <text x="25" y="14">deploy</text>
                <text x="{status_center_x}" y="15" fill="#010101" fill-opacity=".3">{status}</text>
                <text x="{status_center_x}" y="14">{status}</text>
            </g>
        </svg>"##,
        total_width = total_width,
        status_text_width = status_text_width,
        status_center_x = status_center_x,
        color = color,
        status = status
    );
    assert_eq!(render_svg("finished"), expected);
}

#[test]
fn rendered_svg_escapes_the_status_text() {
    let svg = render_svg("<script>\"&'");
    assert!(svg.contains("&lt;script&gt;&quot;&amp;&#39;</text>"));
    assert!(!svg.contains("<script>"));
    // The geometry still follows the raw status length (11 characters).
    let svg2 = render_svg("abcdefghijk");
    assert!(svg2.contains("width=\"138\""));
    assert!(svg.contains("width=\"138\""));
}

#[test]
fn badge_reply_is_200_with_no_store_cache_directive() {
    let outcomes = vec![
        UpstreamOutcome::Offline,
        UpstreamOutcome::Response { code: 401, deployments: None },
        UpstreamOutcome::Response { code: 200, deployments: None },
        UpstreamOutcome::Response { code: 200, deployments: Some(vec![]) },
        UpstreamOutcome::Response {
            code: 200,
            deployments: Some(vec!["finished".to_string()]),
        },
    ];
    for outcome in &outcomes {
        let reply = badge_reply(outcome);
        assert_eq!(reply.status_code, 200);
        assert_eq!(reply.content_type, "image/svg+xml");
        assert_eq!(reply.cache_control, "no-cache, no-store, must-revalidate");
        assert!(reply.cache_control.contains("no-store"));
        assert!(!reply.body.is_empty());
    }
}

#[test]
fn badge_reply_renders_the_classified_status() {
    let reply = badge_reply(&UpstreamOutcome::Offline);
    assert!(reply.body.contains(">offline</text>"));
    assert!(reply.body.contains("#cea61b"));

    let finished = UpstreamOutcome::Response {
        code: 200,
        deployments: Some(vec!["finished".to_string(), "failed".to_string()]),
    };
    let reply = badge_reply(&finished);
    assert!(reply.body.contains(">finished</text>"));
    assert!(reply.body.contains("#3fb950"));
    assert_eq!(reply.body, render_svg("finished"));
}

#[test]
fn root_and_health_always_answer_200() {
    let (code, body) = root_reply();
    assert_eq!(code, 200);
    assert_eq!(body, "Badge service is alive!");
    let (code, body) = health_reply();
    assert_eq!(code, 200);
    assert_eq!(body, "OK");
}
