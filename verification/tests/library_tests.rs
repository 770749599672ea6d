use primer::accounts::call;
use primer::accounts::try_logon;
use primer::accounts::Account;
use primer::accounts::AccountInfo;
use primer::args::choose_action;
use primer::args::decrease;
use primer::args::increase;
use primer::args::Action;
use primer::borrows::add_one;
use primer::borrows::annotated_pass;
use primer::borrows::choose_first;
use primer::borrows::coerce_static;
use primer::borrows::elided_pass;
use primer::borrows::new_edition;
use primer::borrows::pass_x;
use primer::borrows::Book;
use primer::borrows::BorrowedOne;
use primer::borrows::Owner;
use primer::boxes::CloseBox;
use primer::boxes::OpenBox;
use primer::closures::apply;
use primer::closures::apply_to_3;
use primer::closures::call_me;
use primer::closures::call_take_params;
use primer::closures::create_fn_add;
use primer::closures::create_fn_append;
use primer::closures::function_add;
use primer::conversion::Number;
use primer::food::chop;
use primer::food::cook;
use primer::food::cookable_v1;
use primer::food::cookable_v2;
use primer::food::give_princess;
use primer::food::have_ingredients;
use primer::food::have_recipe;
use primer::food::peel;
use primer::food::process;
use primer::food::Chopped;
use primer::food::Cooked;
use primer::food::Food;
use primer::food::Peeled;
use primer::generics::a_difference;
use primer::generics::blue;
use primer::generics::difference;
use primer::generics::red;
use primer::generics::AContainer;
use primer::generics::AContains;
use primer::generics::BlueJay;
use primer::generics::Cardinal;
use primer::generics::Container;
use primer::generics::Contains;
use primer::generics::GenVal;
use primer::person::Person;
use primer::sheep::Animal;
use primer::sheep::Sheep;

#[test]
fn acct_known_numbers() {
    assert_eq!(
        call("798-1364"),
        "we're sorry, the call cannot be completed as dialed.Please hang up and try again"
    );
    assert_eq!(
        call("645-7689"),
        "hello, this is Mr. Awesome's Pizza. My name is Fred.What can I get from you today?"
    );
    assert_eq!(call("555-0000"), "Hi! Who is this again?");
}

#[test]
fn acct_logon() {
    let accounts = vec![(
        Account {
            username: String::from("j.everyman"),
            password: String::from("password123"),
        },
        AccountInfo {
            name: String::from("John Everyman"),
            email: String::from("j.everyman@email.com"),
        },
    )];
    assert_eq!(try_logon(&accounts, "j.everyman", "password123"), Some(0));
    assert_eq!(try_logon(&accounts, "j.everyman", "pasaword123"), None);
    assert_eq!(try_logon(&accounts, "nobody", "password123"), None);
}

#[test]
fn args_actions() {
    let prog = || String::from("match_args");
    assert_eq!(choose_action(&vec![prog()]), Action::Greet);
    assert_eq!(choose_action(&vec![prog(), String::from("42")]), Action::Answer);
    assert_eq!(choose_action(&vec![prog(), String::from("41")]), Action::NotAnswer);
    assert_eq!(
        choose_action(&vec![prog(), String::from("increase"), String::from("5")]),
        Action::Increase(5)
    );
    assert_eq!(
        choose_action(&vec![prog(), String::from("decrease"), String::from("5")]),
        Action::Decrease(5)
    );
    assert_eq!(
        choose_action(&vec![prog(), String::from("increase"), String::from("x")]),
        Action::NotANumber
    );
    assert_eq!(
        choose_action(&vec![prog(), String::from("double"), String::from("5")]),
        Action::InvalidCommand
    );
    assert_eq!(
        choose_action(&vec![prog(), prog(), prog(), prog()]),
        Action::Help
    );
}

#[test]
fn args_increase_decrease() {
    assert_eq!(increase(41), 42);
    assert_eq!(decrease(43), 42);
}

#[test]
fn borrow_mutation() {
    let mut t = 3;
    add_one(&mut t);
    assert_eq!(t, 4);

    let mut owner = Owner(18);
    owner.add_one();
    assert_eq!(owner.0, 19);
}

#[test]
fn borrow_passes() {
    let x = 7;
    let y = 9;
    assert_eq!(*pass_x(&x, &y), 7);
    assert_eq!(*choose_first(&x, &y), 7);
    assert_eq!(*elided_pass(&x), 7);
    assert_eq!(*annotated_pass(&x), 7);
    assert_eq!(*coerce_static(&x), 18);
    assert_eq!(*BorrowedOne::default().x, 10);
}

#[test]
fn borrow_new_edition() {
    let mut book = Book {
        author: "Douglas Hofstadter",
        title: "Godel, Escher, Bach",
        year: 2019,
    };
    new_edition(&mut book);
    assert_eq!(book.year, 2014);
    assert_eq!(book.title, "Godel, Escher, Bach");
}

#[test]
fn box_contents() {
    let open_box = OpenBox { contents: "public information" };
    assert_eq!(open_box.contents, "public information");
    let _closed_box = CloseBox::new("classified information");
}

#[test]
fn clo_apply_family() {
    apply(|| ());
    call_me(|| ());
    assert_eq!(apply_to_3(|x| 2 * x), 6);
    assert_eq!(call_take_params(function_add, 1, 2), 3);
    assert_eq!(call_take_params(|a, b| a + b, 1, 2), 3);
}

#[test]
fn clo_created_functions() {
    let fn_add = create_fn_add();
    assert_eq!(fn_add(1, 2), 3);
    let fn_append = create_fn_append();
    assert_eq!(
        fn_append(String::from("hello, "), String::from("world")),
        String::from("hello, world")
    );
}

#[test]
fn conv_from_int() {
    let num = Number::from(30);
    assert_eq!(num.value, 30);
    let num: Number = 5.into();
    assert_eq!(num.value, 5);
}

#[test]
fn food_availability() {
    assert_eq!(have_ingredients(Food::Sushi), None);
    assert_eq!(have_ingredients(Food::Apple), Some(Food::Apple));
    assert_eq!(have_recipe(Food::CordonBleu), None);
    assert_eq!(have_recipe(Food::Steak), Some(Food::Steak));
}

#[test]
fn food_cookable() {
    for food in [Food::CordonBleu, Food::Steak, Food::Sushi] {
        assert_eq!(cookable_v1(food), cookable_v2(food));
    }
    assert_eq!(cookable_v2(Food::Steak), Some(Food::Steak));
    assert_eq!(cookable_v2(Food::Sushi), None);
    assert_eq!(cookable_v2(Food::CordonBleu), None);
}

#[test]
fn food_pipeline() {
    assert_eq!(peel(Some(Food::Apple)), Some(Peeled(Food::Apple)));
    assert_eq!(chop(peel(Some(Food::Carrot))), Some(Chopped(Food::Carrot)));
    assert_eq!(
        cook(chop(peel(Some(Food::Apple)))),
        Some(Cooked(Food::Apple))
    );
    assert_eq!(process(Some(Food::Carrot)), Some(Cooked(Food::Carrot)));
    assert_eq!(process(None), None);
    give_princess("teddy bear");
}

#[test]
fn gen_containers() {
    let container = Container(3, 10);
    assert!(container.contains(&3, &10));
    assert!(!container.contains(&3, &11));
    assert_eq!(container.first(), 3);
    assert_eq!(container.last(), 10);
    assert_eq!(difference(&container), -7);

    let a_container = AContainer(3, 10);
    assert!(a_container.contains(&3, &10));
    assert_eq!(a_container.first(), 3);
    assert_eq!(a_container.last(), 10);
    assert_eq!(a_difference(&a_container), 7);
}

#[test]
fn gen_value_and_birds() {
    let y = GenVal { gen_val: 3i32 };
    assert_eq!(*y.value(), 3);
    assert_eq!(red(&Cardinal), "red");
    assert_eq!(blue(&BlueJay), "blue");
}

#[test]
fn person_keeps_name() {
    let john = Person::new("John");
    assert_eq!(john.name(), "John");
}

#[test]
fn sheep_lifecycle() {
    let mut dolly: Sheep = Animal::new("Dolly");
    assert!(!dolly.is_naked());
    assert_eq!(dolly.name(), "Dolly");
    assert_eq!(dolly.notice(), "baaaaaaah!");
    dolly.shear();
    assert!(dolly.is_naked());
    assert_eq!(dolly.notice(), "baaaaaaah?");
    dolly.shear();
    assert!(dolly.is_naked());
}
