use maa_bridge::tasks::{
    append_payload, Award, ClientType, CloseDown, Fight, Mall, Paused, Recruit, RogueLike,
    RogueLikeMode, RogueLikeRoles, RogueLikeSquad, RogueLikeTheme, Server, ShopItem, StartUp,
    StoppedTask,
};

#[test]
fn fresh_fight_omits_optional_fields() {
    let fight: Fight<Paused> = Fight::new();
    assert_eq!(
        fight.to_json(),
        "{\"report_to_penguin\":false,\"server\":\"CN\",\"client_type\":\"\",\"DrGrandet\":false}"
    );
}

#[test]
fn fight_with_medicine_includes_it() {
    let fight: Fight<Paused> = Fight::new().use_medicine(2);
    assert_eq!(
        fight.to_json(),
        "{\"medicine\":2,\"report_to_penguin\":false,\"server\":\"CN\",\"client_type\":\"\",\"DrGrandet\":false}"
    );
}

#[test]
fn fight_setters_commute() {
    let a: Fight<Paused> = Fight::new().use_medicine(2).use_stone(3).stop_with_times(7);
    let b: Fight<Paused> = Fight::new().stop_with_times(7).use_stone(3).use_medicine(2);
    assert_eq!(a.to_json(), b.to_json());
    let c: Fight<Paused> = Fight::new().stage("1-7").dr_grandet(true);
    let d: Fight<Paused> = Fight::new().dr_grandet(true).stage("1-7");
    assert_eq!(c.to_json(), d.to_json());
}

#[test]
fn fight_full_configuration_encodes_in_declaration_order() {
    let fight: Fight<Paused> = Fight::new()
        .stage("CE-6")
        .use_medicine(1)
        .use_expiring_medicine(2)
        .use_stone(3)
        .stop_with_times(4)
        .stop_when_drop(vec![("30012".to_string(), 1)])
        .report_to_penguin("pid".to_string())
        .server(Server::US)
        .client_type(ClientType::YoStarEN)
        .dr_grandet(true);
    assert_eq!(
        fight.to_json(),
        "{\"stage\":\"CE-6\",\"medicine\":1,\"expiring_medicine\":2,\"stone\":3,\"times\":4,\
         \"drop\":{\"30012\":1},\"report_to_penguin\":true,\"penguin_id\":\"pid\",\
         \"server\":\"US\",\"client_type\":\"YoStarEN\",\"DrGrandet\":true}"
    );
}

#[test]
fn fight_json_escapes_special_characters() {
    let fight: Fight<Paused> = Fight::new().stage("a\"b\\c\n");
    let json = fight.to_json();
    assert!(json.starts_with("{\"stage\":\"a\\\"b\\\\c\\n\","));
    // The payload stays valid JSON and decodes back to the same stage name.
    let value: serde_json::Value = serde_json::from_str(&json).unwrap();
    assert_eq!(value.get("stage").unwrap().as_str().unwrap(), "a\"b\\c\n");
}

#[test]
fn fight_start_freezes_the_payload() {
    let paused: Fight<Paused> = Fight::new().use_medicine(5).stage("1-7");
    let before = maa_bridge::tasks::fight::fight_to_json(&paused);
    let running = paused.start();
    assert_eq!(maa_bridge::tasks::fight::fight_to_json(&running), before);
}

#[test]
fn startup_encoding() {
    let task: StartUp<Paused> = StartUp::new();
    assert_eq!(task.to_json(), "{\"client_type\":\"\",\"start_game_enabled\":false}");
    let task: StartUp<Paused> =
        StartUp::new().set_client_type(ClientType::Official).set_start_game_enabled(true);
    assert_eq!(task.to_json(), "{\"client_type\":\"Official\",\"start_game_enabled\":true}");
}

#[test]
fn award_and_close_down_encode_empty() {
    let award: Award<Paused> = Award::new();
    assert_eq!(award.to_json(), "{}");
    assert_eq!(award.name(), "Award");
    let close: CloseDown<Paused> = CloseDown::new();
    assert_eq!(close.to_json(), "{}");
    assert_eq!(close.name(), "CloseDown");
}

#[test]
fn mall_encoding_localizes_items() {
    let mall: Mall<Paused> = Mall::new();
    assert_eq!(
        mall.to_json(),
        "{\"shopping\":false,\"buy_first\":[],\"blacklist\":[],\"force_shopping_if_credit_full\":false}"
    );
    let mall: Mall<Paused> = Mall::new()
        .shopping(true)
        .buy_first(vec![ShopItem::LMD, ShopItem::RecruitmentPermit], &Server::US)
        .blacklist(vec![ShopItem::CarbonStick, ShopItem::FurniturePart], &Server::US)
        .force_buy_when_full(true);
    assert_eq!(
        mall.to_json(),
        "{\"shopping\":true,\"buy_first\":[\"LMD\",\"Recruitment\"],\
         \"blacklist\":[\"Carbon\",\"Furniture\"],\"force_shopping_if_credit_full\":true}"
    );
}

#[test]
fn shop_item_localization() {
    assert_eq!(ShopItem::LMD.localize(&Server::CN), "龙门币");
    assert_eq!(ShopItem::RecruitmentPermit.localize(&Server::KR), "채용 허가증");
    assert_eq!(ShopItem::ExpeditedPermit.localize(&Server::US), "Expedited");
}

#[test]
fn recruit_default_encoding() {
    let task: Recruit<Paused> = Recruit::new();
    assert_eq!(
        task.to_json(),
        "{\"refresh\":false,\"select\":[3,4,5],\"confirm\":[3,5,4,6],\"set_time\":true,\
         \"expedite\":false,\"skip_robot\":true,\
         \"recruitment_time\":{\"3\":540,\"4\":540,\"5\":540,\"6\":540},\
         \"report_to_penguin\":false,\"report_to_yituliu\":false,\"server\":\"CN\"}"
    );
}

#[test]
fn recruit_configured_encoding() {
    let task: Recruit<Paused> = Recruit::new()
        .refresh(true)
        .times(16)
        .expedite(2)
        .recruitment_time(540, 540, 540, 60)
        .report_to_yituliu("yid".to_string())
        .server(Server::US);
    assert_eq!(
        task.to_json(),
        "{\"refresh\":true,\"select\":[3,4,5],\"confirm\":[3,5,4,6],\"times\":16,\
         \"set_time\":true,\"expedite\":true,\"expedite_times\":2,\"skip_robot\":true,\
         \"recruitment_time\":{\"3\":540,\"4\":540,\"5\":540,\"6\":60},\
         \"report_to_penguin\":false,\"report_to_yituliu\":true,\"yituliu_id\":\"yid\",\
         \"server\":\"US\"}"
    );
}

#[test]
fn roguelike_default_encoding() {
    let task: RogueLike<Paused> = RogueLike::new();
    assert_eq!(
        task.to_json(),
        "{\"theme\":\"Phantom\",\"mode\":0,\"investment_enabled\":true,\
         \"stop_when_investment_full\":false,\"squad\":\"指挥分队\",\"roles\":\"取长补短\",\
         \"use_support\":false,\"use_nonfriend_support\":false,\"refresh_trader_with_dice\":false}"
    );
}

#[test]
fn roguelike_configured_encoding() {
    let task: RogueLike<Paused> = RogueLike::new()
        .theme(RogueLikeTheme::Mizuki)
        .mode(RogueLikeMode::FarmMoney)
        .starts_count(3)
        .investment_count(5)
        .squad(RogueLikeSquad::Research)
        .roles(RogueLikeRoles::FireMoveAdvance)
        .core_char("棘刺")
        .use_support(true, true)
        .refresh_trader_with_dice(true);
    assert_eq!(
        task.to_json(),
        "{\"theme\":\"Mizuki\",\"mode\":1,\"starts_count\":3,\"investment_enabled\":true,\
         \"investment_count\":5,\"stop_when_investment_full\":false,\"squad\":\"研究分队\",\
         \"roles\":\"先手必胜\",\"core_char\":\"棘刺\",\"use_support\":true,\
         \"use_nonfriend_support\":true,\"refresh_trader_with_dice\":true}"
    );
}

#[test]
fn roguelike_start_drops_the_id() {
    let mut task: RogueLike<Paused> = RogueLike::new();
    task.set_id(9);
    let running = task.start();
    assert_eq!(running.id, None);
}

#[test]
fn append_rejected_once_submitted() {
    let mut task: Fight<Paused> = Fight::new().use_medicine(1);
    let payload = append_payload(&task);
    assert!(payload.is_some());
    let (name, json) = payload.unwrap();
    assert_eq!(name, "Fight");
    assert_eq!(json, task.to_json());
    task.set_id(7);
    assert_eq!(task.id(), Some(7));
    assert!(append_payload(&task).is_none());
}

#[test]
fn every_task_payload_parses_as_json() {
    let payloads = vec![
        Fight::<Paused>::new().stage("1-7").use_medicine(1).to_json(),
        StartUp::<Paused>::new().to_json(),
        Recruit::<Paused>::new().to_json(),
        Mall::<Paused>::new().shopping(true).to_json(),
        RogueLike::<Paused>::new().to_json(),
        Award::<Paused>::new().to_json(),
        CloseDown::<Paused>::new().to_json(),
    ];
    for payload in payloads {
        let value: serde_json::Value = serde_json::from_str(&payload).unwrap();
        assert!(value.is_object());
    }
}
