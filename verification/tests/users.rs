use roblox_client::users::{
    authenticated_user_target, user_id_target, user_search_target, user_target,
    username_history_target, usernames_batch_target, users_batch_target,
    users_to_id_name_pairs, users_to_name_id_pairs, PartialUser,
};

#[test]
fn lookup_targets() {
    assert_eq!(user_target(156), "users.roblox.com/v1/users/156");
    assert_eq!(user_target(0), "users.roblox.com/v1/users/0");
    assert_eq!(
        authenticated_user_target(),
        "users.roblox.com/v1/users/authenticated"
    );
    assert_eq!(
        user_id_target("builderman"),
        "api.roblox.com/users/get-by-username?username=builderman"
    );
    assert_eq!(
        user_search_target("robl", 25),
        "users.roblox.com/v1/users/search?keyword=robl&limit=25"
    );
    assert_eq!(users_batch_target(), "users.roblox.com/v1/users");
    assert_eq!(usernames_batch_target(), "users.roblox.com/v1/usernames/users");
    assert_eq!(
        username_history_target(261),
        "users.roblox.com/v1/users/261/username-history"
    );
}

fn sample_users() -> Vec<PartialUser> {
    vec![
        PartialUser {
            username: "builderman".to_string(),
            display_name: "Builderman".to_string(),
            id: 156,
        },
        PartialUser {
            username: "roblox".to_string(),
            display_name: "Roblox".to_string(),
            id: 1,
        },
        PartialUser {
            username: "builderman".to_string(),
            display_name: "Builderman".to_string(),
            id: 156,
        },
    ]
}

#[test]
fn id_name_pairs_keep_order_and_multiplicity() {
    let pairs = users_to_id_name_pairs(&sample_users());
    assert_eq!(
        pairs,
        vec![
            (156, "builderman".to_string()),
            (1, "roblox".to_string()),
            (156, "builderman".to_string()),
        ]
    );
}

#[test]
fn name_id_pairs_keep_order_and_multiplicity() {
    let pairs = users_to_name_id_pairs(&sample_users());
    assert_eq!(
        pairs,
        vec![
            ("builderman".to_string(), 156),
            ("roblox".to_string(), 1),
            ("builderman".to_string(), 156),
        ]
    );
}

#[test]
fn empty_user_list_maps_to_no_pairs() {
    let none: Vec<PartialUser> = Vec::new();
    assert!(users_to_id_name_pairs(&none).is_empty());
    assert!(users_to_name_id_pairs(&none).is_empty());
}
