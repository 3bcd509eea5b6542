use todo_api::middleware::auth::{GuardAction, LoggedGuard};
use todo_api::models::auth::{AuthenticableUser, AuthenticationError};
use todo_api::models::todo::Todo;
use todo_api::models::user::{NewUser, User};
use todo_api::models::NotFound;
use todo_api::routes::auth::login;
use todo_api::routes::todos::check;
use todo_api::services::hasher::MIN_COST;
use todo_api::state::app::initialize;
use todo_api::validation::new_user_request::NewUserRequest;

/// The store of a test: the rows in memory.
struct Store {
    users: Vec<User>,
    todos: Vec<Todo>,
}

impl Store {
    fn users_with_email(&self, email: &str) -> Vec<User> {
        self.users.iter().filter(|u| u.email == email).cloned().collect()
    }

    fn insert_user(&mut self, values: NewUser) -> User {
        let user = User::new(values.email, values.password);
        self.users.push(user.clone());
        user
    }

    fn todo(&self, id: &str) -> Result<Todo, NotFound> {
        Todo::show(self.todos.iter().filter(|t| t.id == id).cloned().collect())
    }

    fn update(&mut self, id: &str, checked: bool) -> usize {
        let mut updated = 0;
        for t in self.todos.iter_mut().filter(|t| t.id == id) {
            t.checked = checked;
            updated += 1;
        }
        updated
    }
}

fn register(store: &mut Store, email: &str, password: &str) -> Option<User> {
    let body = NewUserRequest { email: email.to_string(), password: password.to_string() };
    if !body.validate(&store.users_with_email(email)).is_empty() {
        return None;
    }
    let values = NewUser::create(email, password, MIN_COST).ok()?;
    Some(store.insert_user(values))
}

#[test]
fn register_login_and_bearer_request_agree_on_the_user() {
    let state = initialize(Some("end to end secret"), None);
    let mut store = Store { users: Vec::new(), todos: Vec::new() };

    let created = register(&mut store, "e@x.com", "secret123").unwrap();
    assert_eq!(created.email, "e@x.com");

    let outcome = AuthenticableUser::authenticate(
        &store.users_with_email("e@x.com"),
        "e@x.com",
        "secret123",
        &state.static_data.jwt_secret,
        state.static_data.jwt_lifetime,
    );
    let response = login::handle(outcome);
    assert_eq!(response.status, 200);
    let token = response.jwt.unwrap();
    assert_eq!(response.user.unwrap().email, "e@x.com");

    let guarded = LoggedGuard::new(&state).new_transform(());
    let header = format!("Bearer {}", token);
    match guarded.call(Some(&header)) {
        GuardAction::Forward { principal, .. } => {
            assert_eq!(principal.email, "e@x.com");
            assert_eq!(principal.id, created.id);
            assert_eq!(principal.password, "");
        }
        _ => panic!("the token of a login has to be admitted"),
    };
}

#[test]
fn registering_an_email_twice_is_refused() {
    let mut store = Store { users: Vec::new(), todos: Vec::new() };
    assert!(register(&mut store, "e@x.com", "secret123").is_some());
    assert!(register(&mut store, "e@x.com", "another1").is_none());
    assert!(register(&mut store, "f@x.com", "xy").is_none());
    assert!(register(&mut store, "not-an-email", "secret123").is_none());
    assert_eq!(store.users.len(), 1);
}

#[test]
fn login_with_wrong_credentials_is_unauthorized() {
    let state = initialize(None, None);
    let mut store = Store { users: Vec::new(), todos: Vec::new() };
    register(&mut store, "e@x.com", "secret123").unwrap();
    for (email, password) in [("e@x.com", "secret124"), ("x@x.com", "secret123"), ("", "")] {
        let outcome = AuthenticableUser::authenticate(
            &store.users_with_email(email),
            email,
            password,
            &state.static_data.jwt_secret,
            state.static_data.jwt_lifetime,
        );
        assert_eq!(outcome, Err(AuthenticationError));
        assert_eq!(login::handle(outcome).status, 401);
    }
}

#[test]
fn checking_the_todo_of_another_user_leaves_it_unchanged() {
    let mut store = Store {
        users: Vec::new(),
        todos: vec![Todo { id: "t1".into(), user_id: "U2".into(), content: "theirs".into(), checked: false }],
    };
    let principal = User { id: "U1".into(), email: "one@x.com".into(), password: "".into() };
    let found = store.todo("t1");
    let status = match check::handle(&principal, &found) {
        Ok(update) => {
            let updated = store.update(&update.id, update.checked);
            match check::respond(found.clone().unwrap(), Todo::check_as(updated)) {
                Ok(_) => 200,
                Err(status) => status,
            }
        }
        Err(status) => status,
    };
    assert_eq!(status, 403);
    assert!(!store.todos[0].checked);

    let owner = User { id: "U2".into(), email: "two@x.com".into(), password: "".into() };
    let update = check::handle(&owner, &found).unwrap();
    let updated = store.update(&update.id, update.checked);
    let shown = check::respond(found.unwrap(), Todo::check_as(updated)).unwrap();
    assert!(shown.checked);
    assert!(store.todos[0].checked);
}
