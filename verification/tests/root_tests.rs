use sm::api::index;
use sm::telegram::Telegram;
use sm::website::Website;

#[test]
fn index_greets() {
    assert_eq!(index(), "Hello, world!");
}

#[test]
fn website_scaffold_runs_its_empty_checks() {
    let telegram = Telegram::new();
    telegram.publish_message();
    Telegram::services_sumary();
    let website = Website::new(telegram);
    website.sumary();
}
