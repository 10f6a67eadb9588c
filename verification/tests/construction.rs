use aleo_api_client::{AleoAPIClient, ValidationError};
use snarkvm_console::network::Testnet3;

const SUFFIX: &str =
    " invalid, the base url must start with or https:// (or http:// if doing local development)";

fn rejected(base_url: &str, chain: &str) -> ValidationError {
    match AleoAPIClient::<Testnet3>::new(base_url, chain) {
        Ok(client) => panic!("{} was accepted as {}", base_url, client.base_url()),
        Err(error) => error,
    }
}

#[test]
fn remote_url_is_accepted() {
    let client = AleoAPIClient::<Testnet3>::new("https://vm.aleo.org/api", "testnet3").unwrap();
    assert_eq!(client.base_url(), "https://vm.aleo.org/api");
    assert_eq!(client.network_id(), "testnet3");
}

#[test]
fn ftp_url_is_rejected_with_a_message() {
    let error = rejected("ftp://example.com", "testnet3");
    assert_eq!(error.url(), "ftp://example.com");
    let message = error.message();
    assert!(message.contains("ftp://example.com"));
    assert!(message.contains("https://"));
    assert!(message.contains("http://"));
    assert!(message.contains("local development"));
    assert_eq!(
        message,
        "specified url ftp://example.com invalid, the base url must start with or https:// (or http:// if doing local development)"
    );
}

#[test]
fn empty_url_is_rejected() {
    let error = rejected("", "mainnet");
    assert_eq!(error.url(), "");
    assert_eq!(error.message(), format!("specified url {}", SUFFIX));
}

#[test]
fn both_schemes_are_accepted() {
    for url in [
        "http://",
        "https://",
        "http://localhost:3030",
        "https://vm.aleo.org/api",
        "http://https://",
        "https://\u{00e9}\u{4e2d}\u{1f600}",
        "http:// spaces and\ttabs ",
    ] {
        let client = AleoAPIClient::<Testnet3>::new(url, "chain").unwrap();
        assert_eq!(client.base_url(), url);
    }
}

#[test]
fn other_beginnings_are_rejected() {
    for url in [
        "",
        "h",
        "http",
        "http:/",
        "http:/ /",
        "https:/",
        "https:",
        "HTTP://example.com",
        "Https://example.com",
        " http://example.com",
        "\thttps://example.com",
        "ftp://example.com",
        "ws://example.com",
        "//example.com",
        "example.com",
        "example.com/http://",
        "htt\u{00fe}://example.com",
        "\u{ff48}ttp://example.com",
    ] {
        let error = rejected(url, "testnet3");
        assert_eq!(error.url(), url);
        assert_eq!(error.message(), format!("specified url {}{}", url, SUFFIX));
    }
}

#[test]
fn chain_does_not_decide() {
    for chain in ["", "testnet3", "mainnet", " ", "no such chain", "\u{1f980}"] {
        let client = AleoAPIClient::<Testnet3>::new("http://node", chain).unwrap();
        assert_eq!(client.network_id(), chain);
        assert_eq!(client.base_url(), "http://node");
        assert_eq!(rejected("node", chain).url(), "node");
    }
}

#[test]
fn strings_are_kept_verbatim() {
    let url = "https://VM.Aleo.ORG/Api/../  trailing  ";
    let chain = "  TestNet3\n";
    let client = AleoAPIClient::<Testnet3>::new(url, chain).unwrap();
    assert_eq!(client.base_url(), url);
    assert_eq!(client.network_id(), chain);
    assert_eq!(client.base_url().len(), url.len());
    assert_eq!(client.network_id().len(), chain.len());
}

#[test]
fn every_client_has_a_scheme() {
    for client in [
        AleoAPIClient::<Testnet3>::testnet3(),
        AleoAPIClient::<Testnet3>::local_testnet3(""),
        AleoAPIClient::<Testnet3>::new("http://a", "b").unwrap(),
    ] {
        let url = client.base_url();
        assert!(!url.is_empty());
        assert!(url.starts_with("http://") || url.starts_with("https://"));
    }
}

#[test]
fn same_arguments_same_strings() {
    let first = AleoAPIClient::<Testnet3>::new("https://vm.aleo.org/api", "testnet3").unwrap();
    let second = AleoAPIClient::<Testnet3>::new("https://vm.aleo.org/api", "testnet3").unwrap();
    assert_eq!(first.base_url(), second.base_url());
    assert_eq!(first.network_id(), second.network_id());
    let named = AleoAPIClient::<Testnet3>::testnet3();
    assert_eq!(first.base_url(), named.base_url());
    assert_eq!(first.network_id(), named.network_id());
}

#[test]
fn reading_changes_nothing() {
    let client = AleoAPIClient::<Testnet3>::local_testnet3("3030");
    let url = client.base_url().to_string();
    let id = client.network_id().to_string();
    let _other = AleoAPIClient::<Testnet3>::local_testnet3("4040");
    let _remote = AleoAPIClient::<Testnet3>::testnet3();
    assert_eq!(client.base_url(), url);
    assert_eq!(client.network_id(), id);
    assert_eq!(client.base_url(), "http://localhost:3030");
    assert_eq!(client.network_id(), "testnet3");
}

#[test]
fn clone_reads_the_same() {
    let client = AleoAPIClient::<Testnet3>::new("http://node:1", "canary").unwrap();
    let copy = client.clone();
    assert_eq!(copy.base_url(), "http://node:1");
    assert_eq!(copy.network_id(), "canary");
    drop(client);
    assert_eq!(copy.base_url(), "http://node:1");
}

#[test]
fn error_can_be_copied_and_shown() {
    let error = rejected("gopher://hole", "testnet3");
    assert_eq!(error.url(), "gopher://hole");
    assert_eq!(error.message(), format!("specified url gopher://hole{}", SUFFIX));
    let copy = error.clone();
    assert_eq!(copy.url(), error.url());
    assert_eq!(copy.message(), error.message());
    assert!(format!("{:?}", error).contains("gopher://hole"));
}
