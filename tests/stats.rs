use xfbridge::models::stats::{
    number_from_string, LatestUser, NumberOrString, Online, StatsResponse, Totals, WireOnline,
    WireStats, WireTotals,
};
use xfbridge::BridgeError;

fn text(s: &str) -> NumberOrString {
    NumberOrString::Text(s.to_string())
}

fn wire(threads: NumberOrString, messages: NumberOrString) -> WireStats {
    WireStats {
        totals: WireTotals {
            threads,
            messages,
            users: 9,
        },
        latest_user: LatestUser {
            user_id: 5,
            username: "bob".to_string(),
            register_date: 1_600_000_000,
        },
        online: WireOnline {
            total: text("12"),
            members: NumberOrString::Number(4),
            guests: text("8"),
        },
    }
}

#[test]
fn number_field_accepts_number() {
    assert_eq!(number_from_string(&NumberOrString::Number(42)), Ok(42));
}

#[test]
fn number_field_accepts_digit_string() {
    assert_eq!(number_from_string(&text("42")), Ok(42));
    assert_eq!(number_from_string(&text("0042")), Ok(42));
    assert_eq!(number_from_string(&text("+7")), Ok(7));
    assert_eq!(
        number_from_string(&text("18446744073709551615")),
        Ok(u64::MAX)
    );
}

#[test]
fn number_field_rejects_non_numeric_strings() {
    for s in ["abc", "", "+", "-1", " 1", "1 ", "1_000", "4.2", "18446744073709551616"] {
        assert_eq!(number_from_string(&text(s)), Err(BridgeError::Decode), "{s}");
    }
}

#[test]
fn string_and_number_encodings_decode_alike() {
    let a = StatsResponse::decode(wire(text("42"), NumberOrString::Number(100))).unwrap();
    let b = StatsResponse::decode(wire(NumberOrString::Number(42), text("100"))).unwrap();
    assert_eq!(a, b);
    assert_eq!(
        a.totals,
        Totals {
            threads: 42,
            messages: 100,
            users: 9
        }
    );
    assert_eq!(
        a.online,
        Online {
            total: 12,
            members: 4,
            guests: 8
        }
    );
    assert_eq!(a.latest_user.username, "bob");
    assert_eq!(a.latest_user.register_date, 1_600_000_000);
}

#[test]
fn non_numeric_threads_is_decode_error() {
    let r = StatsResponse::decode(wire(text("abc"), NumberOrString::Number(1)));
    assert_eq!(r, Err(BridgeError::Decode));
}

#[test]
fn non_numeric_online_field_is_decode_error() {
    let mut w = wire(NumberOrString::Number(1), NumberOrString::Number(2));
    w.online.guests = text("many");
    assert_eq!(StatsResponse::decode(w), Err(BridgeError::Decode));
}

#[test]
fn totals_and_online_decode_on_their_own() {
    let t = Totals::decode(&WireTotals {
        threads: text("3"),
        messages: text("4"),
        users: 5,
    });
    assert_eq!(
        t,
        Ok(Totals {
            threads: 3,
            messages: 4,
            users: 5
        })
    );
    let o = Online::decode(&WireOnline {
        total: NumberOrString::Number(3),
        members: text("x"),
        guests: NumberOrString::Number(0),
    });
    assert_eq!(o, Err(BridgeError::Decode));
}
