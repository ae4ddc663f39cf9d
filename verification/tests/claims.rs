use form_state::auth::claims::{DynamicClaims, UserRole};

fn claims(sub: &str, exp: u64, iat: u64) -> DynamicClaims {
    DynamicClaims {
        sub: sub.to_string(),
        exp,
        iat,
        iss: None,
        aud: None,
        nbf: None,
        jti: None,
        project: None,
        role: None,
        wallet_address: None,
        email: None,
        name: None,
        dynamic_user_id: None,
        env_id: None,
        sid: None,
        additional_claims: Vec::new(),
    }
}

fn with_role(role: &str) -> DynamicClaims {
    let mut c = claims("user123", 1703980800, 1703894400);
    c.role = Some(role.to_string());
    c
}

#[test]
fn test_deserialize_claims() {
    let mut c = claims("user123", 1703980800, 1703894400);
    c.iss = Some("https://dynamic.xyz".to_string());
    c.aud = Some("my-app".to_string());
    c.project = Some("proj-abc123".to_string());
    assert_eq!(c.sub, "user123");
    assert_eq!(c.exp, 1703980800);
    assert_eq!(c.iat, 1703894400);
    assert_eq!(c.iss, Some("https://dynamic.xyz".to_string()));
    assert_eq!(c.aud, Some("my-app".to_string()));
    assert_eq!(c.project, Some("proj-abc123".to_string()));
    assert!(c.is_for_project("proj-abc123"));
    assert!(!c.is_for_project("other-project"));
}

#[test]
fn test_missing_project() {
    let c = claims("user123", 1703980800, 1703894400);
    assert_eq!(c.project, None);
    assert_eq!(c.project_id(), None);
    assert!(!c.is_for_project("any-project"));
}

#[test]
fn test_additional_claims() {
    let mut c = claims("user123", 1703980800, 1703894400);
    c.project = Some("proj-abc123".to_string());
    c.additional_claims.push(("custom_field".to_string(), "\"custom_value\"".to_string()));
    c.additional_claims.push(("nested".to_string(), "{\"field\":123}".to_string()));
    assert_eq!(c.sub, "user123");
    assert_eq!(c.project, Some("proj-abc123".to_string()));
    assert!(c.additional_claims.iter().any(|(k, _)| k == "custom_field"));
    let v = c.additional_claims.iter().find(|(k, _)| k == "custom_field").map(|(_, v)| v.clone()).unwrap();
    assert_eq!(serde_json::from_str::<serde_json::Value>(&v).unwrap(), serde_json::Value::String("custom_value".to_string()));
    assert!(c.additional_claims.iter().any(|(k, _)| k == "nested"));
}

#[test]
fn test_user_roles() {
    let admin = with_role("admin");
    assert_eq!(admin.user_role(), UserRole::Admin);
    assert!(admin.is_admin());
    assert!(admin.is_developer());
    assert!(admin.has_role(&UserRole::User));

    let dev = with_role("developer");
    assert_eq!(dev.user_role(), UserRole::Developer);
    assert!(!dev.is_admin());
    assert!(dev.is_developer());
    assert!(dev.has_role(&UserRole::User));
    assert!(!dev.has_role(&UserRole::Admin));

    let user = with_role("user");
    assert_eq!(user.user_role(), UserRole::User);
    assert!(!user.is_admin());
    assert!(!user.is_developer());
    assert!(user.has_role(&UserRole::User));
    assert!(!user.has_role(&UserRole::Developer));

    let none = claims("user123", 1703980800, 1703894400);
    assert_eq!(none.user_role(), UserRole::User);
    assert!(!none.is_admin());
    assert!(!none.is_developer());
    assert!(none.has_role(&UserRole::User));
}

#[test]
fn test_role_from_str() {
    assert_eq!(UserRole::from_str("admin"), Some(UserRole::Admin));
    assert_eq!(UserRole::from_str("Admin"), Some(UserRole::Admin));
    assert_eq!(UserRole::from_str("ADMIN"), Some(UserRole::Admin));
    assert_eq!(UserRole::from_str("developer"), Some(UserRole::Developer));
    assert_eq!(UserRole::from_str("user"), Some(UserRole::User));
    assert_eq!(UserRole::from_str("unknown"), None);
}

#[test]
fn test_additional_standard_claims() {
    let mut c = claims("user123", 1703980800, 1703894400);
    c.nbf = Some(1703894100);
    c.jti = Some("token-id-123".to_string());
    c.email = Some("user@example.com".to_string());
    c.name = Some("Test User".to_string());
    c.wallet_address = Some("0x123456789abcdef".to_string());
    c.dynamic_user_id = Some("dyn-user-123".to_string());
    c.env_id = Some("env-456".to_string());
    c.sid = Some("session-789".to_string());
    assert_eq!(c.sub, "user123");
    assert_eq!(c.nbf, Some(1703894100));
    assert_eq!(c.jti, Some("token-id-123".to_string()));
    assert_eq!(c.email, Some("user@example.com".to_string()));
    assert_eq!(c.name, Some("Test User".to_string()));
    assert_eq!(c.wallet_address, Some("0x123456789abcdef".to_string()));
    assert_eq!(c.dynamic_user_id, Some("dyn-user-123".to_string()));
    assert_eq!(c.env_id, Some("env-456".to_string()));
    assert_eq!(c.sid, Some("session-789".to_string()));
    assert_eq!(c.email(), Some("user@example.com"));
    assert_eq!(c.name(), Some("Test User"));
    assert_eq!(c.wallet_address(), Some("0x123456789abcdef"));
    assert!(c.is_valid_time(1703894400));
    assert!(c.is_valid_time(1703895000));
    assert!(!c.is_valid_time(1703894000));
    assert!(!c.is_valid_time(1703981000));
}

#[test]
fn role_permissions_follow_rank() {
    let roles = [UserRole::Admin, UserRole::Developer, UserRole::User];
    for (i, a) in roles.iter().enumerate() {
        for (j, b) in roles.iter().enumerate() {
            assert_eq!(a.has_permission(b), i <= j);
        }
    }
}
