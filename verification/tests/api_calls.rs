use cornhacks24_game::api::{ClearRequest, Endpoint, InterrogateRequest, InterrogateResponse};

#[test]
fn routes_of_the_three_calls() {
    assert_eq!(Endpoint::Interrogate.route(), "interrogate");
    assert_eq!(Endpoint::Clear.route(), "clear");
    assert_eq!(Endpoint::Start.route(), "start");
}

#[test]
fn url_appends_route_to_base() {
    let base = "http://localhost:3000/";
    assert_eq!(Endpoint::Interrogate.url(base), "http://localhost:3000/interrogate");
    assert_eq!(Endpoint::Clear.url(base), "http://localhost:3000/clear");
    assert_eq!(Endpoint::Start.url(base), "http://localhost:3000/start");
}

#[test]
fn url_with_empty_base_is_the_route() {
    assert_eq!(Endpoint::Clear.url(""), "clear");
}

#[test]
fn only_start_has_no_reply_and_no_body() {
    assert!(Endpoint::Interrogate.has_reply());
    assert!(Endpoint::Clear.has_reply());
    assert!(!Endpoint::Start.has_reply());
    assert!(Endpoint::Interrogate.has_body());
    assert!(Endpoint::Clear.has_body());
    assert!(!Endpoint::Start.has_body());
}

#[test]
fn reply_is_the_response_field() {
    let r = InterrogateResponse { response: "I was at the bar all night.".to_string() };
    assert_eq!(r.into_reply(), "I was at the bar all night.");
}

#[test]
fn request_bodies_hold_their_fields() {
    let q = InterrogateRequest {
        name: "Clyde".to_string(),
        game_id: "g1".to_string(),
        message: "Where were you?".to_string(),
        our_roll: 20,
        sus_roll: 1,
    };
    assert_eq!(q.name, "Clyde");
    assert_eq!(q.our_roll, 20);
    assert_eq!(q.sus_roll, 1);
    let c = ClearRequest { game_id: "g1".to_string() };
    assert_eq!(c.game_id, "g1");
}
