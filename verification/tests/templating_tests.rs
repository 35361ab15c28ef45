//! Tests of the template engine wrapper and its two LaTeX filters.

use papers::config::Config;
use papers::endpoints::{preview, preview_render, preview_reply};
use papers::json::JsonValue;
use papers::papers::DocumentSpec;
use papers::templating::{add_raw_template, make_tera, render_template};

fn s(text: &str) -> String {
    text.to_string()
}

#[test]
fn make_tera_surfaces_working_escape_filter() {
    static TEMPLATE: &'static str = r"
        \documentclass{article}

        \begin{document}
        {{escape_me | escape_tex}}
        {{do_not_escape}}
        \end{document}
        ";

    static EXPECTED_TEMPLATE_RESULT: &'static str = r"
        \documentclass{article}

        \begin{document}
        Bros \& Siss 100\% 0.50\$ Ernst is nr \#1 \{or not\}
        % you shall not compile %
        \end{document}
        ";

    let mut tera = make_tera();
    let variables = JsonValue::Object(vec![
        (
            s("escape_me"),
            JsonValue::String(s("Bros & Siss 100% 0.50$ Ernst is nr #1 {or not}")),
        ),
        (
            s("do_not_escape"),
            JsonValue::String(s("% you shall not compile %")),
        ),
    ]);
    add_raw_template(&mut tera, "template", TEMPLATE).expect("failed to add raw template");
    let rendered_template =
        render_template(&tera, "template", &variables).expect("failed to render the template");
    assert_eq!(rendered_template, EXPECTED_TEMPLATE_RESULT);
}

#[test]
fn make_tera_surfaces_working_unescape_filter() {
    static TEMPLATE: &'static str = r"
        \documentclass{article}

        \begin{document}
        {{unescape_me | unescape_tex}}
        \end{document}
        ";

    static EXPECTED_TEMPLATE_RESULT: &'static str = r"
        \documentclass{article}

        \begin{document}
        Bros & Siss 100% 0.50$ Ernst is nr #1 {or not}
        \end{document}
        ";

    let mut tera = make_tera();
    let variables = JsonValue::Object(vec![(
        s("unescape_me"),
        JsonValue::String(s("Bros \\& Siss 100\\% 0.50\\$ Ernst is nr \\#1 \\{or not\\}")),
    )]);
    add_raw_template(&mut tera, "template", TEMPLATE).expect("failed to add raw template");
    let rendered_template =
        render_template(&tera, "template", &variables).expect("failed to render the template");
    assert_eq!(rendered_template, EXPECTED_TEMPLATE_RESULT);
}

static SIMPLE_TEMPLATE: &'static str = r"
\documentclass{article}

\begin{document}
hello, {{who}}
\end{document}
";

static SIMPLE_EXPECTED: &'static str = r"
\documentclass{article}

\begin{document}
hello, world
\end{document}
";

#[test]
fn test_simple_template_preview() {
    let config = Config::for_tests();
    let spec = DocumentSpec {
        assets_urls: vec![],
        callback_url: "/".to_string(),
        output_filename: "out.pdf".to_string(),
        template_url: "http://127.0.0.1/template.tex.tera".to_string(),
        variables: JsonValue::Object(vec![(s("who"), JsonValue::String(s("world")))]),
        no_escape_tex: false,
    };

    assert!(preview(&spec, &config).is_ok());
    let rendered = preview_render(&spec, SIMPLE_TEMPLATE).unwrap();
    let reply = preview_reply(rendered);
    assert_eq!(reply.status, 200);
    assert_eq!(reply.body, SIMPLE_EXPECTED);
}

#[test]
fn preview_round_trip_renders_exactly() {
    let template = "\\documentclass{article}\\begin{document}hello, {{who}}\\end{document}";
    let spec = DocumentSpec {
        assets_urls: vec![],
        callback_url: "http://127.0.0.1/callback".to_string(),
        output_filename: "out.pdf".to_string(),
        template_url: "http://127.0.0.1/template".to_string(),
        variables: JsonValue::Object(vec![(s("who"), JsonValue::String(s("peter")))]),
        no_escape_tex: false,
    };
    let reply = preview_reply(preview_render(&spec, template).unwrap());
    assert_eq!(reply.status, 200);
    assert_eq!(
        reply.body,
        "\\documentclass{article}\\begin{document}hello, peter\\end{document}"
    );
}

#[test]
fn render_surfaces_template_errors() {
    let spec = DocumentSpec {
        assets_urls: vec![],
        callback_url: "/".to_string(),
        output_filename: "out.pdf".to_string(),
        template_url: "/t".to_string(),
        variables: JsonValue::Object(vec![]),
        no_escape_tex: false,
    };
    let broken = "{{ unclosed";
    assert!(preview_render(&spec, broken).is_err());
}

#[test]
fn escaped_variables_reach_the_engine() {
    let template = "{{note}}";
    let spec = DocumentSpec {
        assets_urls: vec![],
        callback_url: "/".to_string(),
        output_filename: "out.pdf".to_string(),
        template_url: "/t".to_string(),
        variables: JsonValue::Object(vec![(s("note"), JsonValue::String(s("50% off & more")))]),
        no_escape_tex: false,
    };
    let reply = preview_reply(preview_render(&spec, template).unwrap());
    assert_eq!(reply.body, "50\\% off \\& more");
}
