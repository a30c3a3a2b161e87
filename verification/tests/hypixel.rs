use axolotl_client_api::hypixel::colors::Code;
use axolotl_client_api::hypixel::rank::Rank;

#[test]
fn codes_are_found_by_name() {
    assert_eq!(Code::of("BLACK"), Some(Code::Black));
    assert_eq!(Code::of("DARK_GRAY"), Some(Code::DarkGray));
    assert_eq!(Code::of("GRAY"), Some(Code::Gray));
    assert_eq!(Code::of("LIGHT_PURPLE"), Some(Code::LightPurple));
    assert_eq!(Code::of("MAGIC"), Some(Code::Magic));
    assert_eq!(Code::of("RESET"), Some(Code::Reset));
    assert_eq!(Code::of("black"), None);
    assert_eq!(Code::of(""), None);
    assert_eq!(Code::of_option(None), None);
    assert_eq!(Code::of_option(Some("GOLD")), Some(Code::Gold));
    assert_eq!(Code::of_option(Some("PINK")), None);
}

#[test]
fn codes_have_their_two_characters() {
    assert_eq!(Code::Black.get_code(), "§0");
    assert_eq!(Code::Gold.get_code(), "§6");
    assert_eq!(Code::Red.get_code(), "§c");
    assert_eq!(Code::White.get_code(), "§f");
    assert_eq!(Code::Bold.get_code(), "§l");
    assert_eq!(Code::Magic.get_code(), "§k");
    assert_eq!(Code::Reset.get_code(), "§r");
}

#[test]
fn ranks_are_found_by_name() {
    assert_eq!(Rank::of("NONE"), Rank::Normal);
    assert_eq!(Rank::of("NORMAL"), Rank::Normal);
    assert_eq!(Rank::of("VIP"), Rank::Vip);
    assert_eq!(Rank::of("VIP_PLUS"), Rank::VipPlus);
    assert_eq!(Rank::of("MVP_PLUS"), Rank::MvpPlus);
    assert_eq!(Rank::of("SUPERSTAR"), Rank::Superstar);
    assert_eq!(Rank::of("GAME_MASTER"), Rank::GameMaster);
    assert_eq!(Rank::of("YOUTUBER"), Rank::Youtuber);
    assert_eq!(Rank::of("whatever"), Rank::Normal);
}

#[test]
fn ranks_have_names_and_weights() {
    assert_eq!(Rank::Normal.to_string(), "NORMAL");
    assert_eq!(Rank::JrHelper.to_string(), "JR_HELPER");
    assert_eq!(Rank::Superstar.to_string(), "SUPERSTAR");
    assert_eq!(Rank::Normal.weight(), 1);
    assert_eq!(Rank::Superstar.weight(), 6);
    assert_eq!(Rank::Admin.weight(), 100);
    assert_eq!(Rank::GameMaster.weight(), 95);
    assert_eq!(Rank::Youtuber.weight(), 60);
}

#[test]
fn ranks_are_formatted() {
    assert_eq!(Rank::Normal.to_string_formatted(None, None), "§7");
    assert_eq!(Rank::Vip.to_string_formatted(None, None), "§a[VIP]");
    assert_eq!(Rank::VipPlus.to_string_formatted(Some("RED"), None), "§a[VIP§6+§a]");
    assert_eq!(Rank::MvpPlus.to_string_formatted(None, None), "§b[MVP§c+§b]");
    assert_eq!(Rank::MvpPlus.to_string_formatted(Some("DARK_GREEN"), Some("AQUA")), "§b[MVP§2+§b]");
    assert_eq!(Rank::MvpPlus.to_string_formatted(Some("nonsense"), None), "§b[MVP§c+§b]");
    assert_eq!(Rank::Superstar.to_string_formatted(None, None), "§6[MVP§c++§6]");
    assert_eq!(Rank::Superstar.to_string_formatted(Some("BLUE"), Some("AQUA")), "§b[MVP§9++§b]");
    assert_eq!(Rank::Youtuber.to_string_formatted(None, None), "§c[§fYOUTUBE§c]");
    assert_eq!(Rank::JrHelper.to_string_formatted(None, None), "§9[JR HELPER]");
    assert_eq!(Rank::GameMaster.to_string_formatted(None, None), "§2[GM]");
}

#[test]
fn record_rank_is_staff_rank_or_highest_bought() {
    assert_eq!(Rank::of_record(None, None, None, None), Rank::Normal);
    assert_eq!(Rank::of_record(Some("ADMIN"), Some("SUPERSTAR"), None, None), Rank::Admin);
    assert_eq!(Rank::of_record(Some("NORMAL"), Some("SUPERSTAR"), Some("MVP_PLUS"), Some("VIP")), Rank::Superstar);
    assert_eq!(Rank::of_record(None, Some("NONE"), Some("MVP_PLUS"), Some("VIP")), Rank::MvpPlus);
    assert_eq!(Rank::of_record(None, None, Some("VIP"), Some("MVP")), Rank::Mvp);
    assert_eq!(Rank::of_record(Some("odd"), None, Some("VIP"), None), Rank::Normal);
}
