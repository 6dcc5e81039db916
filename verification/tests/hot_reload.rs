use break_stack::hot_reload::{
    hot_reload_build_id, hot_reload_enabled, hot_reload_script, hot_reload_script_tag,
};

#[test]
fn without_a_build_id_live_reload_is_off() {
    assert_eq!(hot_reload_build_id(None), "not_set");
    assert!(!hot_reload_enabled(None));
    assert_eq!(hot_reload_script_tag(None), "");
}

#[test]
fn with_a_build_id_live_reload_is_on() {
    assert_eq!(hot_reload_build_id(Some("abc123")), "abc123");
    assert!(hot_reload_enabled(Some("abc123")));
    assert_eq!(hot_reload_script_tag(Some("abc123")), r#"<script src="/reload/script"></script>"#);
}

#[test]
fn an_empty_build_id_still_switches_live_reload_on() {
    assert_eq!(hot_reload_build_id(Some("")), "");
    assert!(hot_reload_enabled(Some("")));
}

#[test]
fn the_script_holds_the_build_id() {
    let expected = format!(
        r#"
let current_version = "{}".trim();
async function watch() {{
  const response = await fetch("/reload/build_id");
  const version = (await response.text()).trim();
  if (version.length > 0 && version != current_version) {{
    console.log("old version", current_version);
    console.log("new version", version);
    window.location.reload();
  }}
}}

setInterval(watch, 2000);

htmx.logAll();"#,
        "build-7"
    );
    assert_eq!(hot_reload_script(Some("build-7")), expected);
    assert!(hot_reload_script(None).contains(r#"let current_version = "not_set".trim();"#));
}
