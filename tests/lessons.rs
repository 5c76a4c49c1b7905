use rust_basics::functions::{five, plus_one};
use rust_basics::guess::Guess;
use rust_basics::matching::{plus_one as plus_one_option, value_in_cents, Coin, UsState};
use rust_basics::points::{NewPoint, Pair, Point};
use rust_basics::rectangles::{area, area2, area3, Rectangle};
use rust_basics::restaurant::{Appetizer, Breakfast};
use rust_basics::summary::{return_summarizable, NewsArticle, Summary, Summary2, Summary3, Tweet};
use rust_basics::users::build_struct;

#[test]
fn simple_functions() {
    assert_eq!(five(), 5);
    assert_eq!(plus_one(5), 6);
    assert_eq!(plus_one(-1), 0);
}

#[test]
fn coin_values() {
    assert_eq!(value_in_cents(Coin::Penny), 1);
    assert_eq!(value_in_cents(Coin::Nickel), 5);
    assert_eq!(value_in_cents(Coin::Dime), 10);
    assert_eq!(value_in_cents(Coin::Quarter(UsState::Alabama)), 25);
    assert_eq!(value_in_cents(Coin::Quarter(UsState::Alaska)), 25);
}

#[test]
fn option_plus_one() {
    assert_eq!(plus_one_option(Some(5)), Some(6));
    assert_eq!(plus_one_option(None), None);
}

#[test]
fn guess_keeps_value() {
    assert_eq!(Guess::new(1).value(), 1);
    assert_eq!(Guess::new(42).value(), 42);
    assert_eq!(Guess::new(100).value(), 100);
}

#[test]
fn rectangle_areas() {
    assert_eq!(area(30, 50), 1500);
    assert_eq!(area2((30, 50)), 1500);
    assert_eq!(area3(&Rectangle { width: 30, height: 50 }), 1500);
    assert_eq!(Rectangle { width: 50, height: 40 }.area(), 2000);
    assert_eq!(Rectangle::constructor(100, 90).area(), 9000);
}

#[test]
fn rectangle_can_hold() {
    let rect1 = Rectangle { width: 30, height: 50 };
    let rect2 = Rectangle { width: 10, height: 40 };
    let rect3 = Rectangle { width: 60, height: 45 };
    assert!(rect1.can_hold(&rect2));
    assert!(!rect1.can_hold(&rect3));
    assert!(!rect1.can_hold(&rect1));
}

#[test]
fn rectangle_builders() {
    assert_eq!(Rectangle::square(30), Rectangle { width: 30, height: 30 });
    assert_eq!(Rectangle::constructor(100, 90), Rectangle { width: 100, height: 90 });
}

#[test]
fn user_from_parts() {
    let user = build_struct(String::from("qq@qq.com"), String::from("qqq"));
    assert_eq!(user.email, "qq@qq.com");
    assert_eq!(user.username, "qqq");
    assert!(user.active);
    assert_eq!(user.sign_in_count, 1);
}

#[test]
fn points_and_pairs() {
    let p = Point { x: 5, y: 10 };
    assert_eq!(*p.x(), 5);
    let p1 = NewPoint { x: 5, y: 10.4 };
    let p2 = NewPoint { x: "hello", y: 'c' };
    let p3 = p1.mixup(p2);
    assert_eq!(p3.x, 5);
    assert_eq!(p3.y, 'c');
    let pair = Pair::new(3, 7);
    assert_eq!((pair.x, pair.y), (3, 7));
    assert!(!pair.x_is_largest());
    assert!(Pair::new('b', 'b').x_is_largest());
    assert!(Pair::new(9, -2).x_is_largest());
}

#[test]
fn summaries() {
    let tweet = Tweet {
        username: String::from("user1"),
        content: String::from("content1 content1 content1"),
        reply: false,
        retweet: false,
    };
    assert_eq!(tweet.summarize(), "user1: content1 content1 content1");
    assert_eq!(tweet.summarize_author(), "@user1");
    assert_eq!(tweet.summarize3(), "(read more from @user1...)");
    let article = NewsArticle {
        headline: String::from("title"),
        location: String::from("italy"),
        author: String::from("admin"),
        content: String::from("content2 content2 content2"),
    };
    assert_eq!(article.summarize(), "title, by admin (italy)");
    assert_eq!(article.summarize2(), "(read more...)");
}

#[test]
fn summarizable_post() {
    let post = return_summarizable();
    assert_eq!(post.summarize(), "user: contentx contentx");
    assert!(!post.reply && !post.retweet);
}

#[test]
fn restaurant_orders() {
    let meal = Breakfast::summer("rye");
    assert_eq!(meal.toast, "cheese toast");
    assert_ne!(Appetizer::Soup, Appetizer::Salad);
    rust_basics::restaurant::eat_at_restaurant();
    rust_basics::restaurant::incorrect_order();
    rust_basics::restaurant::eat_at_restaurant3();
    rust_basics::use_paths::eat_at_restaurant();
    rust_basics::use_paths::eat_at_restaurant2();
    rust_basics::use_paths::eat_at_restaurant3();
    rust_basics::use_paths::eat_at_restaurant4();
    rust_basics::separate_files::eat_at_restaurant();
    rust_basics::separate_files::eat_at_restaurant2();
}
