use terra_fusion_pro::api::property_controller::property_id;
use terra_fusion_pro::auth::auth_controller::login;
use terra_fusion_pro::auth::replit_auth::{
    decode_id_token_at, encode_as_id_token, ReplitAuth, ReplitAuthConfig, UserClaims, UserSession,
};
use terra_fusion_pro::auth::session::SessionData;
use terra_fusion_pro::json::{JsonField, JsonObject};

/// A fixed sequence of numbers that look random.
struct Numbers(u64);

impl Numbers {
    fn next(&mut self) -> u64 {
        self.0 = self.0.wrapping_mul(6364136223846793005).wrapping_add(1442695040888963407);
        self.0 ^ (self.0 >> 29)
    }

    fn text(&mut self) -> String {
        let alphabet: Vec<char> =
            "abcXYZ019 .\"\\/'{}[]:,\n\r\t\u{0}\u{1f}\u{7f}é\u{2028}\u{ffff}😀\u{10ffff}-_+="
                .chars()
                .collect();
        let len = (self.next() % 12) as usize;
        (0..len).map(|_| alphabet[(self.next() % alphabet.len() as u64) as usize]).collect()
    }

    fn optional_text(&mut self) -> Option<String> {
        if self.next() % 3 == 0 {
            None
        } else {
            Some(self.text())
        }
    }

    fn moment(&mut self) -> i64 {
        match self.next() % 5 {
            0 => i64::MIN,
            1 => i64::MAX,
            2 => 0,
            _ => (self.next() as i64) >> (self.next() % 64),
        }
    }

    fn claims(&mut self) -> UserClaims {
        UserClaims {
            sub: self.text(),
            email: self.optional_text(),
            first_name: self.optional_text(),
            last_name: self.optional_text(),
            profile_image_url: self.optional_text(),
            iat: self.moment(),
            exp: self.moment(),
        }
    }
}

#[test]
fn identity_tokens_round_trip() {
    let mut numbers = Numbers(11);
    for _ in 0..500 {
        let claims = numbers.claims();
        let token = encode_as_id_token(&claims).unwrap();
        assert_eq!(token.matches('.').count(), 2);
        assert_eq!(decode_id_token_at(&token, claims.exp), Ok(claims.clone()));
        assert_eq!(decode_id_token_at(&token, i64::MIN), Ok(claims.clone()));
        if claims.exp < i64::MAX {
            assert!(decode_id_token_at(&token, claims.exp + 1).is_err());
            assert!(decode_id_token_at(&token, i64::MAX).is_err());
        }
    }
}

#[test]
fn sessions_round_trip() {
    let mut numbers = Numbers(12);
    for _ in 0..500 {
        let user_session = if numbers.next() % 2 == 0 {
            None
        } else {
            Some(UserSession {
                claims: numbers.claims(),
                access_token: numbers.text(),
                refresh_token: numbers.optional_text(),
                expires_at: numbers.moment(),
            })
        };
        let session = SessionData {
            user_session,
            original_url: numbers.optional_text(),
            auth_state: numbers.optional_text(),
        };
        assert_eq!(SessionData::load(Some(&session.save())), session);
    }
}

#[test]
fn json_objects_round_trip() {
    let mut numbers = Numbers(13);
    for _ in 0..500 {
        let mut obj = JsonObject::new();
        let members = numbers.next() % 6;
        for _ in 0..members {
            let name = numbers.text();
            let value = match numbers.next() % 4 {
                0 => JsonField::Null,
                1 => JsonField::Bool(numbers.next() % 2 == 0),
                2 => JsonField::Number(Some(numbers.moment())),
                _ => JsonField::Text(numbers.text()),
            };
            obj.put(&name, value);
        }
        let text = obj.to_text().unwrap();
        let back = JsonObject::from_text(&text).unwrap();
        for (name, _) in &obj.members {
            assert_eq!(back.get(name), obj.get(name), "text {}", text);
        }
        for (name, _) in &back.members {
            assert_eq!(back.get(name), obj.get(name), "text {}", text);
        }
    }
}

fn is_uuid(text: &str) -> bool {
    text.len() == 36
        && text.chars().enumerate().all(|(i, c)| {
            if i == 8 || i == 13 || i == 18 || i == 23 {
                c == '-'
            } else {
                c.is_ascii_digit() || ('a'..='f').contains(&c)
            }
        })
}

#[test]
fn fresh_states_have_the_shape_of_a_uuid() {
    let auth = ReplitAuth::new(ReplitAuthConfig {
        issuer_url: "i".to_string(),
        repl_id: "r".to_string(),
        callback_url: "c".to_string(),
        domain: "d".to_string(),
    });
    let mut seen = std::collections::HashSet::new();
    for _ in 0..200 {
        let begun = login(&auth, &SessionData::new(), None);
        let state = begun.session.auth_state.unwrap();
        assert!(is_uuid(&state), "state {}", state);
        assert!(seen.insert(state));
    }
}

#[test]
fn keys_of_properties_have_the_shape_of_a_uuid() {
    for path in [
        "67e55044-10b1-426f-9247-bb680e5fe0c8",
        "67E5504410B1426F9247BB680E5FE0C8",
        "{67e55044-10b1-426f-9247-bb680e5fe0c8}",
        "urn:uuid:67e55044-10b1-426f-9247-bb680e5fe0c8",
    ] {
        assert_eq!(
            property_id(path),
            Ok("67e55044-10b1-426f-9247-bb680e5fe0c8".to_string()),
            "path {}",
            path
        );
    }
    for path in ["", "67e55044", "67e55044-10b1-426f-9247-bb680e5fe0cg", "not-a-uuid"] {
        assert!(property_id(path).is_err(), "path {}", path);
    }
}
