use arch_bento::roulette::RouletteClient;

#[test]
fn endpoints_of_the_service() {
    let client = RouletteClient::new("https://roulette.example".to_string());
    assert_eq!(client.create_url(), "https://roulette.example/api/roulette");
    assert_eq!(client.start_url(&"abc".to_string()), "https://roulette.example/api/roulette/abc/start");
    assert_eq!(client.page_url(&"abc".to_string()), "https://roulette.example/roulette/abc");
}
