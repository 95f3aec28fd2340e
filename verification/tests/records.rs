use backend::customers::{
    create_customer, customer_id, destroy_customer, edit_customer, ChangeRequest, NewCustomer,
    Order, PersonalInformation, User, UsersRequest,
};
use backend::order::{
    create, get_all, ListedOrder, LoginDetails, RegisterDetails, StoredOrder, ORDER_NAME,
};
use backend::reply::{Reply, Status};
use backend::secrets::{
    grab_secrets, Secrets, StoredSecrets, DOMAIN_URL, MAILGUN_KEY, MAILGUN_URL, STRIPE_KEY,
    STRIPE_SUB_PRICE, SUPABASE_API_KEY, SUPABASE_DB_URL, SUPABASE_STORAGE_URL,
};

fn empty_reply(status: Status) -> Reply {
    Reply {
        status,
        body: String::new(),
    }
}

#[test]
fn the_numbers_of_the_statuses() {
    assert_eq!(Status::Success.code(), 200);
    assert_eq!(Status::Created.code(), 201);
    assert_eq!(Status::BadRequest.code(), 400);
    assert_eq!(Status::Unauthorized.code(), 401);
    assert_eq!(Status::NotFound.code(), 404);
    assert_eq!(Status::InternalServerError.code(), 500);
}

#[test]
fn only_the_two_hundreds_are_a_success() {
    let all = [
        Status::Success,
        Status::Created,
        Status::BadRequest,
        Status::Unauthorized,
        Status::NotFound,
        Status::InternalServerError,
    ];
    for status in all {
        assert_eq!(status.is_success(), (200..300).contains(&status.code()));
    }
}

#[test]
fn replies_are_built_from_a_status_and_a_text() {
    assert_eq!(
        Reply::with_text(Status::NotFound, "gone"),
        Reply {
            status: Status::NotFound,
            body: "gone".to_string()
        }
    );
    assert_eq!(
        Reply::internal("broken".to_string()),
        Reply {
            status: Status::InternalServerError,
            body: "broken".to_string()
        }
    );
}

#[test]
fn the_answer_of_the_customer_creation() {
    for rows in [0, 1, 7] {
        assert_eq!(create_customer(Ok(rows)), empty_reply(Status::Success));
    }
    assert_eq!(
        create_customer(Err("null value in column".to_string())),
        Reply {
            status: Status::InternalServerError,
            body: "null value in column".to_string(),
        }
    );
}

#[test]
fn a_customer_that_is_not_there_is_not_found() {
    let missing = Reply {
        status: Status::NotFound,
        body: "Customer not found".to_string(),
    };
    assert_eq!(destroy_customer(Ok(0)), missing);
    assert_eq!(edit_customer(Ok(0)), missing);
}

#[test]
fn a_customer_that_was_touched_is_a_success() {
    for rows in [1, 2, u64::MAX] {
        assert_eq!(destroy_customer(Ok(rows)), empty_reply(Status::Success));
        assert_eq!(edit_customer(Ok(rows)), empty_reply(Status::Success));
    }
}

#[test]
fn a_failed_customer_statement_is_an_internal_error() {
    let failed = Reply {
        status: Status::InternalServerError,
        body: "syntax error at or near \"$1\"".to_string(),
    };
    assert_eq!(
        destroy_customer(Err("syntax error at or near \"$1\"".to_string())),
        failed
    );
    assert_eq!(
        edit_customer(Err("syntax error at or near \"$1\"".to_string())),
        failed
    );
}

#[test]
fn the_id_of_a_customer_is_read_from_the_path() {
    assert_eq!(customer_id("17", false), Ok(17));
    assert_eq!(customer_id("-3", false), Ok(-3));
    assert_eq!(customer_id("+8", true), Ok(8));
    assert_eq!(customer_id(" 17\n", true), Ok(17));
    assert_eq!(customer_id("2147483647", false), Ok(i32::MAX));
    assert_eq!(customer_id("-2147483648", true), Ok(i32::MIN));
}

#[test]
fn a_parameter_that_is_no_id_is_a_bad_request() {
    let refused = Reply {
        status: Status::BadRequest,
        body: "Invalid customer id".to_string(),
    };
    for text in ["", "abc", "1x", " 17", "17 ", "2147483648", "1.5", "-"] {
        assert_eq!(customer_id(text, false), Err(refused.clone()), "{:?}", text);
    }
    for text in ["", "   ", "abc", "1 7", "2147483648", "-2147483649"] {
        assert_eq!(customer_id(text, true), Err(refused.clone()), "{:?}", text);
    }
}

#[test]
fn the_customer_records_hold_their_fields() {
    let request = UsersRequest { email: None };
    assert_eq!(request.clone(), request);
    let user = User {
        id: 1,
        external_id: None,
        email: "a@b".to_string(),
        role: Some("admin".to_string()),
    };
    assert_eq!(user.clone(), user);
    let person = PersonalInformation {
        fistname: Some("A".to_string()),
        lastname: None,
        dob: None,
        sex: None,
    };
    assert_eq!(person.clone(), person);
    let order = Order {
        external_id: None,
        amount: Some("1".to_string()),
        extra_data: None,
        status: None,
    };
    assert_eq!(order.clone(), order);
    let change = ChangeRequest {
        columnname: "phone".to_string(),
        new_value: "1".to_string(),
        email: "a@b".to_string(),
    };
    assert_eq!(change.clone(), change);
    let customer = NewCustomer {
        firstName: "A".to_string(),
        lastName: "B".to_string(),
        email: "a@b".to_string(),
        phone: "1".to_string(),
        priority: 1,
        userEmail: "u@b".to_string(),
    };
    assert_eq!(customer.clone(), customer);
    let register = RegisterDetails {
        email: "a@b".to_string(),
        password: "p".to_string(),
        role: None,
    };
    assert_eq!(register.clone(), register);
    let login = LoginDetails {
        email: "a@b".to_string(),
        password: "p".to_string(),
    };
    assert_eq!(login.clone(), login);
}

#[test]
fn the_answer_of_the_order_creation() {
    assert_eq!(ORDER_NAME, "test 0");
    assert_eq!(
        create(Ok(1)),
        Reply {
            status: Status::Created,
            body: "Order created!".to_string()
        }
    );
    assert_eq!(
        create(Err("relation does not exist".to_string())),
        Reply {
            status: Status::InternalServerError,
            body: "relation does not exist".to_string()
        }
    );
}

#[test]
fn the_listing_of_the_orders() {
    let rows = vec![
        StoredOrder {
            name: "test 0".to_string(),
            data: "{\"a\":1}".to_string(),
            created_at: "2024-01-01".to_string(),
        },
        StoredOrder {
            name: "test 1".to_string(),
            data: "[]".to_string(),
            created_at: "2024-01-02".to_string(),
        },
    ];
    assert_eq!(
        get_all(Ok(rows)),
        Ok(vec![
            ListedOrder {
                kind: "test 0".to_string(),
                order: "{\"a\":1}".to_string(),
                created_at: "2024-01-01".to_string(),
            },
            ListedOrder {
                kind: "test 1".to_string(),
                order: "[]".to_string(),
                created_at: "2024-01-02".to_string(),
            },
        ])
    );
    assert_eq!(get_all(Ok(Vec::new())), Ok(Vec::new()));
    assert_eq!(
        get_all(Err("relation does not exist".to_string())),
        Err(Reply {
            status: Status::InternalServerError,
            body: "relation does not exist".to_string()
        })
    );
}

#[test]
fn the_names_of_the_secrets() {
    assert_eq!(
        [
            STRIPE_KEY,
            STRIPE_SUB_PRICE,
            MAILGUN_KEY,
            MAILGUN_URL,
            DOMAIN_URL,
            SUPABASE_DB_URL,
            SUPABASE_STORAGE_URL,
            SUPABASE_API_KEY
        ],
        [
            "STRIPE_KEY",
            "STRIPE_SUB_PRICE",
            "MAILGUN_KEY",
            "MAILGUN_URL",
            "DOMAIN_URL",
            "SUPABASE_DB_URL",
            "SUPABASE_STORAGE_URL",
            "SUPABASE_API_KEY"
        ]
    );
}

#[test]
fn missing_secrets_get_their_placeholders() {
    let found = StoredSecrets {
        stripe_key: None,
        stripe_sub_price: None,
        mailgun_key: None,
        mailgun_url: None,
        domain: None,
        supabase_url: Some("postgres://db".to_string()),
        supabase_storage_url: None,
        supabase_api_key: None,
    };
    assert_eq!(
        grab_secrets(found),
        Secrets {
            stripe_key: "None".to_string(),
            stripe_sub_price: "None".to_string(),
            mailgun_key: "None".to_string(),
            mailgun_url: "None".to_string(),
            domain: "http://127.0.0.1:8000".to_string(),
            supabase_url: "postgres://db".to_string(),
            supabase_storage_url: String::new(),
            supabase_api_key: String::new(),
        }
    );
}

#[test]
fn secrets_that_are_set_are_taken() {
    let found = StoredSecrets {
        stripe_key: Some("sk".to_string()),
        stripe_sub_price: Some("price".to_string()),
        mailgun_key: Some("mk".to_string()),
        mailgun_url: Some("mu".to_string()),
        domain: Some("https://app.example".to_string()),
        supabase_url: Some("postgres://db".to_string()),
        supabase_storage_url: Some("https://s.example".to_string()),
        supabase_api_key: Some("key".to_string()),
    };
    assert_eq!(
        grab_secrets(found),
        Secrets {
            stripe_key: "sk".to_string(),
            stripe_sub_price: "price".to_string(),
            mailgun_key: "mk".to_string(),
            mailgun_url: "mu".to_string(),
            domain: "https://app.example".to_string(),
            supabase_url: "postgres://db".to_string(),
            supabase_storage_url: "https://s.example".to_string(),
            supabase_api_key: "key".to_string(),
        }
    );
}
