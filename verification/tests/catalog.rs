//! Providers: what a published list says of them, and what the picker makes of
//! it.
use auru_pm_ui::path::Platform;
use auru_pm_ui::catalog::{
    default_listing, fetch_first_party_catalog, find_provider, load_provider_file, local_provider,
    parse_provider_list, primary_listing, AuthHint, AuthMethod, Capabilities, CatalogState,
    ProviderAvailability, ProviderListing, RegistryAvailability, RegistryEntry, RegistryRead,
};
use serde_json::Value;

const ON: Platform = Platform::Other;

const PUBLISHED: &str = r#"{"providers":[{"id":"auru-cloud","name":"Auru Cloud","endpoint":"https://pm.auru.studio","detail":"Hosted · au-melb · encrypted at rest","availability":"recommended","auth_methods":["oauth_device_code"],"description":"Hosted backup with encrypted storage","recommended":true}]}"#;

fn text(value: &Value, field: &str) -> String {
    value
        .get(field)
        .and_then(Value::as_str)
        .unwrap_or_default()
        .to_owned()
}

fn entry(value: &Value) -> RegistryEntry {
    let auth_methods = value
        .get("auth_methods")
        .and_then(Value::as_array)
        .map(|methods| {
            methods
                .iter()
                .map(|method| match method.as_str() {
                    Some("oauth_authorization_code_pkce") => AuthMethod::OAuthAuthorizationCodePkce,
                    Some("oauth_device_code") => AuthMethod::OAuthDeviceCode,
                    Some("pat") => AuthMethod::Pat,
                    _ => AuthMethod::NoAuth,
                })
                .collect()
        })
        .unwrap_or_default();
    RegistryEntry {
        id: text(value, "id"),
        name: text(value, "name"),
        endpoint: text(value, "endpoint"),
        capabilities: Capabilities::default(),
        auth_methods,
        icon_url: None,
        description: text(value, "description"),
        detail: text(value, "detail"),
        recommended: value
            .get("recommended")
            .and_then(Value::as_bool)
            .unwrap_or(false),
        availability: match text(value, "availability").as_str() {
            "recommended" => RegistryAvailability::Recommended,
            "on-your-network" => RegistryAvailability::OnYourNetwork,
            _ => RegistryAvailability::Available,
        },
    }
}

fn document(json: &str) -> Result<Vec<RegistryEntry>, String> {
    let value: Value = serde_json::from_str(json).map_err(|error| error.to_string())?;
    let providers = value
        .get("providers")
        .and_then(Value::as_array)
        .ok_or("missing field `providers`")?;
    Ok(providers.iter().map(entry).collect())
}

fn parse(json: &str, source: &str) -> Result<Vec<ProviderListing>, String> {
    parse_provider_list(document(json), source)
}

fn file(json: &str) -> RegistryRead {
    match document(json) {
        Ok(entries) => RegistryRead::Parsed(entries),
        Err(error) => RegistryRead::Malformed(error),
    }
}

#[test]
fn the_published_provider_list_should_parse() {
    let providers = parse(PUBLISHED, "published").expect("parse");

    assert_eq!(providers.len(), 1);
    assert_eq!(providers[0].entry.name, "Auru Cloud");
    assert_eq!(providers[0].entry.endpoint, "https://pm.auru.studio");
    assert_eq!(providers[0].detail, "Hosted · au-melb · encrypted at rest");
    assert_eq!(providers[0].availability, ProviderAvailability::Recommended);
}

#[test]
fn the_published_list_and_the_flag_should_read_the_same_document() {
    let from_file = load_provider_file("/tmp/providers.json", file(PUBLISHED)).expect("from file");
    let from_network = parse(PUBLISHED, "published").expect("from network");

    assert_eq!(from_file.len(), from_network.len());
    assert_eq!(from_file[0].entry.id, from_network[0].entry.id);
    assert_eq!(from_file[0].detail, from_network[0].detail);
}

#[test]
fn an_empty_or_broken_list_should_be_an_error_not_an_empty_picker() {
    // A list that parses to nothing is a misconfiguration, not a state to
    // render silently.
    assert!(parse(r#"{"providers":[]}"#, "test").is_err());
    assert!(parse("not json", "test").is_err());
}

#[test]
fn oauth_provider_should_require_authentication() {
    let providers = parse(PUBLISHED, "published").expect("parse");

    assert!(providers[0].requires_authentication());
    assert_eq!(
        providers[0].preferred_auth_method(),
        AuthMethod::OAuthDeviceCode
    );
}

#[test]
fn provider_advertising_none_should_connect_directly() {
    let json = r#"{"providers":[{"id":"studio-nas","name":"Studio NAS","endpoint":"http://nas.local:3000","auth_methods":["none"]}]}"#;
    let providers = parse(json, "test").expect("parse");

    assert!(!providers[0].requires_authentication());
    assert_eq!(providers[0].preferred_auth_method(), AuthMethod::NoAuth);
}

#[test]
fn an_entry_that_says_nothing_about_availability_should_be_available() {
    let json = r#"{"providers":[{"id":"remote","name":"Remote","endpoint":"https://remote.example","description":"Remote provider"}]}"#;
    let providers = parse(json, "test").expect("parse");

    assert_eq!(providers[0].availability, ProviderAvailability::Available);
}

#[test]
fn a_registry_should_not_be_able_to_claim_you_are_connected() {
    let json = r#"{"providers":[{"id":"a","name":"A","endpoint":"https://a.example","availability":"connected"}]}"#;
    let providers = parse(json, "test").expect("parse");
    assert_ne!(providers[0].availability, ProviderAvailability::Connected);
}

#[test]
fn a_registry_may_say_a_provider_is_on_your_network() {
    // A studio's own registry knows this about its own NAS.
    let json = r#"{"providers":[{"id":"nas","name":"NAS","endpoint":"http://nas.local:3000","availability":"on-your-network"}]}"#;
    let providers = parse(json, "test").expect("parse");
    assert_eq!(
        providers[0].availability,
        ProviderAvailability::OnYourNetwork
    );
}

#[test]
fn a_local_folder_should_need_no_account() {
    let listing = local_provider(ON, "/mnt/nas/Auru Backups");

    assert!(listing.is_local());
    assert!(!listing.requires_authentication());
    assert_eq!(listing.preferred_auth_method(), AuthMethod::NoAuth);
    assert_eq!(listing.entry.name, "Auru Backups");
    assert_eq!(
        listing.local_path().as_deref(),
        Some("/mnt/nas/Auru Backups")
    );
}

#[test]
fn the_same_folder_should_always_produce_the_same_identity() {
    let path = "/mnt/nas/Backups";
    assert_eq!(local_provider(ON, path).entry.id, local_provider(ON, path).entry.id);
    assert_ne!(
        local_provider(ON, path).entry.id,
        local_provider(ON, "/mnt/other/Backups").entry.id
    );
}

#[test]
fn a_fetched_provider_should_not_be_mistaken_for_a_local_one() {
    let providers = parse(PUBLISHED, "published").expect("parse");
    assert!(!providers[0].is_local());
    assert_eq!(providers[0].local_path(), None);
}

#[test]
fn an_unreachable_list_should_be_distinguishable_from_a_loading_one() {
    // Both leave the picker empty; only one is worth waiting on, so the states
    // must not read alike.
    assert_ne!(
        CatalogState::Loading.label(),
        CatalogState::Unreachable.label()
    );
}

#[test]
fn a_providers_file_should_drive_the_picker() {
    let read = file(
        r#"{"providers":[
            {"id":"auru-cloud","name":"Auru Cloud","endpoint":"https://pm.auru.studio",
             "detail":"Hosted · eu-west","availability":"recommended",
             "auth_methods":["oauth_device_code"],"recommended":true},
            {"id":"nas","name":"Studio NAS","endpoint":"http://nas.local:4242",
             "detail":"smb://studio-nas","availability":"on-your-network",
             "auth_methods":["none"]}
        ]}"#,
    );

    let providers = load_provider_file("/tmp/providers.json", read).expect("load");
    assert_eq!(providers.len(), 2);
    assert_eq!(providers[0].entry.name, "Auru Cloud");
    assert_eq!(providers[0].detail, "Hosted · eu-west");
    assert_eq!(providers[0].availability, ProviderAvailability::Recommended);
    assert!(providers[0].requires_authentication());
    assert_eq!(
        providers[1].availability,
        ProviderAvailability::OnYourNetwork
    );
    assert!(!providers[1].requires_authentication());
}

#[test]
fn an_entry_that_says_nothing_about_auth_should_claim_nothing() {
    let read = file(r#"{"providers":[{"id":"x","name":"Bare","endpoint":"https://x.example"}]}"#);

    let providers = load_provider_file("/tmp/providers.json", read).expect("load");
    assert!(!providers[0].requires_authentication());
    assert_eq!(providers[0].auth_hint().summary, "No sign-in needed");
    assert_eq!(
        providers[0].detail, "https://x.example",
        "with no detail or description, the endpoint is the most useful line"
    );
}

#[test]
fn a_broken_providers_file_should_explain_itself() {
    let error = load_provider_file(
        "/tmp/nope.json",
        RegistryRead::Unreadable("No such file or directory".to_owned()),
    )
    .expect_err("no such file");
    assert!(error.contains("nope.json"), "{error}");

    let error = load_provider_file("/tmp/bad.json", file("{ not json")).expect_err("malformed");
    assert!(error.contains("isn't a valid provider list"), "{error}");

    let error =
        load_provider_file("/tmp/empty.json", file(r#"{"providers":[]}"#)).expect_err("empty");
    assert!(error.contains("lists no providers"), "{error}");
}

#[test]
fn every_auth_method_should_say_what_will_happen() {
    // The hint is shown before someone commits to a provider, so each method
    // needs a summary and a fuller explanation.
    for method in [
        AuthMethod::OAuthAuthorizationCodePkce,
        AuthMethod::OAuthDeviceCode,
        AuthMethod::Pat,
        AuthMethod::NoAuth,
    ] {
        let hint = AuthHint::for_method(&method);
        assert!(!hint.summary.is_empty());
        assert!(hint.detail.len() > hint.summary.len());
        assert!(!hint.eyebrow.is_empty());
        assert!(!hint.action.is_empty());
    }

    assert_eq!(
        AuthHint::for_method(&AuthMethod::OAuthDeviceCode).summary,
        "Sign in with your browser"
    );
    assert_eq!(
        AuthHint::for_method(&AuthMethod::Pat).summary,
        "Needs an access token"
    );
}

#[test]
fn the_token_hint_should_promise_the_keychain_not_a_file() {
    // Where a credential ends up is the thing a person most wants to know
    // before pasting one.
    let hint = AuthHint::for_method(&AuthMethod::Pat);
    assert!(hint.detail.contains("keychain"), "{}", hint.detail);
}

#[test]
fn a_local_destination_keeps_its_projects_beneath_it() {
    let listing = local_provider(ON, "/mnt/nas");
    assert_eq!(
        listing.projects_root(ON).as_deref(),
        Some("/mnt/nas/.auru-pm/projects")
    );
    assert_eq!(
        listing.project_root(ON, "night-drive").as_deref(),
        Some("/mnt/nas/.auru-pm/projects/night-drive")
    );
    let fetched = parse(PUBLISHED, "published").expect("parse");
    assert_eq!(fetched[0].projects_root(ON), None);
}

#[test]
fn a_fetch_that_fails_says_so() {
    assert!(fetch_first_party_catalog(Err("timed out".to_owned()), "https://x").is_err());
    assert_eq!(
        fetch_first_party_catalog(document(PUBLISHED), "https://x")
            .expect("a list")
            .len(),
        1
    );
}

#[test]
fn the_default_destination_is_the_first_connected() {
    let mut providers = parse(PUBLISHED, "published").expect("parse");
    providers.push(local_provider(ON, "/mnt/a"));
    providers.push(local_provider(ON, "/mnt/b"));
    assert_eq!(default_listing(&providers), None);
    providers[1].mark_connected();
    providers[2].mark_connected();
    assert_eq!(default_listing(&providers), Some(1));
    assert_eq!(primary_listing(&providers, &None), None);
    assert_eq!(
        primary_listing(&providers, &Some("local:/mnt/b".to_owned())),
        Some(2)
    );
    assert_eq!(find_provider(&providers, "local:/mnt/b"), Some(2));
    assert_eq!(find_provider(&providers, "nobody"), None);
}
