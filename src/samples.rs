use vstd::prelude::*;

verus! {

/// Creates and fills a `users` table of one hundred people.
pub const USERS_SCRIPT: &'static str = r#"
                CREATE TABLE IF NOT EXISTS users (
                    id INTEGER PRIMARY KEY,
                    name VARCHAR,
                    email VARCHAR,
                    age INTEGER,
                    city VARCHAR,
                    created_at TIMESTAMP
                );
                DELETE FROM users;
                INSERT INTO users
                SELECT
                    i as id,
                    'User ' || i as name,
                    'user' || i || '@example.com' as email,
                    20 + (i % 50) as age,
                    CASE (i % 5)
                        WHEN 0 THEN 'Tokyo'
                        WHEN 1 THEN 'Osaka'
                        WHEN 2 THEN 'Nagoya'
                        WHEN 3 THEN 'Fukuoka'
                        ELSE 'Sapporo'
                    END as city,
                    NOW() - INTERVAL (i * 24) HOUR as created_at
                FROM generate_series(1, 100) as t(i);
            "#;

/// Creates and fills a `products` table of fifty products.
pub const PRODUCTS_SCRIPT: &'static str = r#"
                CREATE TABLE IF NOT EXISTS products (
                    id INTEGER PRIMARY KEY,
                    name VARCHAR,
                    category VARCHAR,
                    price DECIMAL(10,2),
                    stock INTEGER,
                    rating DECIMAL(2,1)
                );
                DELETE FROM products;
                INSERT INTO products
                SELECT
                    i as id,
                    'Product ' || i as name,
                    CASE (i % 5)
                        WHEN 0 THEN 'Electronics'
                        WHEN 1 THEN 'Clothing'
                        WHEN 2 THEN 'Food'
                        WHEN 3 THEN 'Books'
                        ELSE 'Home'
                    END as category,
                    ROUND(10 + (random() * 990), 2) as price,
                    CAST(random() * 1000 AS INTEGER) as stock,
                    ROUND(1 + (random() * 4), 1) as rating
                FROM generate_series(1, 50) as t(i);
            "#;

/// Creates and fills an `orders` table of five hundred orders.
pub const ORDERS_SCRIPT: &'static str = r#"
                CREATE TABLE IF NOT EXISTS orders (
                    id INTEGER PRIMARY KEY,
                    user_id INTEGER,
                    product_id INTEGER,
                    quantity INTEGER,
                    total_price DECIMAL(10,2),
                    status VARCHAR,
                    order_date DATE
                );
                DELETE FROM orders;
                INSERT INTO orders
                SELECT
                    i as id,
                    1 + (i % 100) as user_id,
                    1 + (i % 50) as product_id,
                    1 + (i % 10) as quantity,
                    ROUND(100 + (random() * 900), 2) as total_price,
                    CASE (i % 4)
                        WHEN 0 THEN 'pending'
                        WHEN 1 THEN 'processing'
                        WHEN 2 THEN 'shipped'
                        ELSE 'delivered'
                    END as status,
                    CURRENT_DATE - INTERVAL (i % 365) DAY as order_date
                FROM generate_series(1, 500) as t(i);
            "#;

/// Creates and fills all three sample tables.
pub const ALL_SCRIPT: &'static str = r#"
                -- Users
                CREATE TABLE IF NOT EXISTS users (id INTEGER PRIMARY KEY, name VARCHAR, email VARCHAR, age INTEGER, city VARCHAR, created_at TIMESTAMP);
                DELETE FROM users;
                INSERT INTO users SELECT i, 'User ' || i, 'user' || i || '@example.com', 20 + (i % 50), CASE (i % 5) WHEN 0 THEN 'Tokyo' WHEN 1 THEN 'Osaka' WHEN 2 THEN 'Nagoya' WHEN 3 THEN 'Fukuoka' ELSE 'Sapporo' END, NOW() - INTERVAL (i * 24) HOUR FROM generate_series(1, 100) as t(i);

                -- Products
                CREATE TABLE IF NOT EXISTS products (id INTEGER PRIMARY KEY, name VARCHAR, category VARCHAR, price DECIMAL(10,2), stock INTEGER, rating DECIMAL(2,1));
                DELETE FROM products;
                INSERT INTO products SELECT i, 'Product ' || i, CASE (i % 5) WHEN 0 THEN 'Electronics' WHEN 1 THEN 'Clothing' WHEN 2 THEN 'Food' WHEN 3 THEN 'Books' ELSE 'Home' END, ROUND(10 + (random() * 990), 2), CAST(random() * 1000 AS INTEGER), ROUND(1 + (random() * 4), 1) FROM generate_series(1, 50) as t(i);

                -- Orders
                CREATE TABLE IF NOT EXISTS orders (id INTEGER PRIMARY KEY, user_id INTEGER, product_id INTEGER, quantity INTEGER, total_price DECIMAL(10,2), status VARCHAR, order_date DATE);
                DELETE FROM orders;
                INSERT INTO orders SELECT i, 1 + (i % 100), 1 + (i % 50), 1 + (i % 10), ROUND(100 + (random() * 900), 2), CASE (i % 4) WHEN 0 THEN 'pending' WHEN 1 THEN 'processing' WHEN 2 THEN 'shipped' ELSE 'delivered' END, CURRENT_DATE - INTERVAL (i % 365) DAY FROM generate_series(1, 500) as t(i);
            "#;

/// The script of a kind of sample data, if the kind is known.
pub open spec fn sample_script(kind: Seq<char>) -> Option<&'static str> {
    if kind == "users"@ {
        Some(USERS_SCRIPT)
    } else if kind == "products"@ {
        Some(PRODUCTS_SCRIPT)
    } else if kind == "orders"@ {
        Some(ORDERS_SCRIPT)
    } else if kind == "all"@ {
        Some(ALL_SCRIPT)
    } else {
        None
    }
}

/// The SQL script that creates the sample data of `kind` (`users`, `products`, `orders` or
/// `all`); any other kind is refused with a message that names it.
pub fn sample_data_script(kind: &str) -> (r: Result<&'static str, String>)
    ensures
        match sample_script(kind@) {
            Some(script) => r == Ok::<&'static str, String>(script),
            None => r is Err && r->Err_0@ == "Unknown sample type: "@ + kind@,
        },
{
    let k = kind.to_owned();
    if k == "users".to_owned() {
        Ok(USERS_SCRIPT)
    } else if k == "products".to_owned() {
        Ok(PRODUCTS_SCRIPT)
    } else if k == "orders".to_owned() {
        Ok(ORDERS_SCRIPT)
    } else if k == "all".to_owned() {
        Ok(ALL_SCRIPT)
    } else {
        let mut e = "Unknown sample type: ".to_owned();
        e.append(kind);
        Err(e)
    }
}

/// The pieces of a text between semicolons, in order.
pub uninterp spec fn semicolon_pieces(s: Seq<char>) -> Seq<Seq<char>>;

/// A text without its leading and trailing white space.
pub uninterp spec fn trimmed(s: Seq<char>) -> Seq<char>;

/// Relies on `str::split` with the pattern `';'`.
#[verifier::external_body]
fn split_on_semicolons(s: &str) -> (r: Vec<String>)
    ensures
        r@.map_values(|p: String| p@) == semicolon_pieces(s@),
{
    s.split(';').map(|p| p.to_owned()).collect()
}

/// Relies on `str::trim`.
#[verifier::external_body]
fn trim_text(s: &str) -> (r: String)
    ensures
        r@ == trimmed(s@),
{
    s.trim().to_owned()
}

/// The statements of a script: its pieces between semicolons, trimmed, the empty ones left
/// out.
pub open spec fn statements_of(script: Seq<char>) -> Seq<Seq<char>> {
    semicolon_pieces(script).map_values(|p: Seq<char>| trimmed(p)).filter(
        |t: Seq<char>| t.len() > 0,
    )
}

/// Splits a script into the statements to run one at a time.
pub fn split_statements(script: &str) -> (r: Vec<String>)
    ensures
        r@.map_values(|s: String| s@) == statements_of(script@),
{
    let pieces = split_on_semicolons(script);
    let ghost trims = pieces@.map_values(|p: String| trimmed(p@));
    let mut out: Vec<String> = Vec::new();
    let mut i: usize = 0;
    while i < pieces.len()
        invariant
            i <= pieces@.len(),
            trims == pieces@.map_values(|p: String| trimmed(p@)),
            out@.map_values(|s: String| s@) == trims.take(i as int).filter(
                |t: Seq<char>| t.len() > 0,
            ),
        decreases pieces@.len() - i,
    {
        let t = trim_text(pieces[i].as_str());
        proof {
            assert(trims.take(i + 1) == trims.take(i as int).push(trims[i as int]));
            reveal(Seq::filter);
            assert(trims.take(i + 1).drop_last() =~= trims.take(i as int));
        }
        if !t.as_str().is_empty() {
            out.push(t);
        }
        proof {
            assert(out@.map_values(|s: String| s@) =~= trims.take(i + 1).filter(
                |t: Seq<char>| t.len() > 0,
            ));
        }
        i += 1;
    }
    proof {
        assert(trims.take(pieces@.len() as int) =~= trims);
        assert(pieces@.map_values(|p: String| p@) == semicolon_pieces(script@));
        assert(trims =~= semicolon_pieces(script@).map_values(|p: Seq<char>| trimmed(p)));
    }
    out
}

} // verus!
