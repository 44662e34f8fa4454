//! The word lists of the agent. Every word is written in lower case: the
//! lists are held against the lower-case form of a message.

use vstd::prelude::*;

verus! {

/// Words of greeting.
pub open spec fn greeting_words() -> Seq<Seq<char>> {
    seq![
        "hello"@, "hi"@, "hey"@, "bonjour"@, "salut"@, "cześć"@, "czesc"@, "witaj"@,
        "dzień dobry"@, "hola"@, "buenos"@,
    ]
}

/// Words of greeting.
pub fn greeting_list() -> (v: Vec<&'static str>)
    ensures
        v.deep_view() == greeting_words(),
{
    let v = vec![
        "hello", "hi", "hey", "bonjour", "salut", "cześć", "czesc", "witaj", "dzień dobry",
        "hola", "buenos",
    ];
    assert(v.deep_view() =~= greeting_words());
    v
}

/// Words that ask for a website.
pub open spec fn website_words() -> Seq<Seq<char>> {
    seq![
        "website"@, "web site"@, "e-commerce"@, "site web"@, "strona"@, "sitio web"@,
    ]
}

/// Words that ask for a website.
pub fn website_list() -> (v: Vec<&'static str>)
    ensures
        v.deep_view() == website_words(),
{
    let v = vec![
        "website", "web site", "e-commerce", "site web", "strona", "sitio web",
    ];
    assert(v.deep_view() =~= website_words());
    v
}

/// Words that ask for prices.
pub open spec fn pricing_words() -> Seq<Seq<char>> {
    seq![
        "price"@, "pricing"@, "cost"@, "how much"@, "prix"@, "tarif"@, "combien"@, "cena"@,
        "koszt"@, "precio"@, "cuánto"@, "cuanto"@,
    ]
}

/// Words that ask for prices.
pub fn pricing_list() -> (v: Vec<&'static str>)
    ensures
        v.deep_view() == pricing_words(),
{
    let v = vec![
        "price", "pricing", "cost", "how much", "prix", "tarif", "combien", "cena", "koszt",
        "precio", "cuánto", "cuanto",
    ];
    assert(v.deep_view() =~= pricing_words());
    v
}

/// Words that ask how to reach the agency.
pub open spec fn contact_words() -> Seq<Seq<char>> {
    seq![
        "contact"@, "email"@, "e-mail"@, "phone"@, "kontakt"@, "telefon"@, "teléfono"@,
        "courriel"@,
    ]
}

/// Words that ask how to reach the agency.
pub fn contact_list() -> (v: Vec<&'static str>)
    ensures
        v.deep_view() == contact_words(),
{
    let v = vec![
        "contact", "email", "e-mail", "phone", "kontakt", "telefon", "teléfono", "courriel",
    ];
    assert(v.deep_view() =~= contact_words());
    v
}

/// Words that ask for help.
pub open spec fn help_words() -> Seq<Seq<char>> {
    seq![
        "help"@, "assist"@, "aide"@, "pomoc"@, "pomóc"@, "ayuda"@,
    ]
}

/// Words that ask for help.
pub fn help_list() -> (v: Vec<&'static str>)
    ensures
        v.deep_view() == help_words(),
{
    let v = vec![
        "help", "assist", "aide", "pomoc", "pomóc", "ayuda",
    ];
    assert(v.deep_view() =~= help_words());
    v
}

/// Words that ask what the agency offers.
pub open spec fn services_words() -> Seq<Seq<char>> {
    seq![
        "service"@, "offer"@, "usług"@, "servicio"@, "ofrece"@,
    ]
}

/// Words that ask what the agency offers.
pub fn services_list() -> (v: Vec<&'static str>)
    ensures
        v.deep_view() == services_words(),
{
    let v = vec![
        "service", "offer", "usług", "servicio", "ofrece",
    ];
    assert(v.deep_view() =~= services_words());
    v
}

/// Words that show that a message is written in Polish.
pub open spec fn polish_marker_words() -> Seq<Seq<char>> {
    seq![
        "cześć"@, "czesc"@, "dzień dobry"@, "witaj"@, "pomoc"@, "cena"@, "koszt"@, "kontakt"@,
        "strona"@,
    ]
}

/// Words that show that a message is written in Polish.
pub fn polish_marker_list() -> (v: Vec<&'static str>)
    ensures
        v.deep_view() == polish_marker_words(),
{
    let v = vec![
        "cześć", "czesc", "dzień dobry", "witaj", "pomoc", "cena", "koszt", "kontakt", "strona",
    ];
    assert(v.deep_view() =~= polish_marker_words());
    v
}

/// Words that show that a message is written in French.
pub open spec fn french_marker_words() -> Seq<Seq<char>> {
    seq![
        "bonjour"@, "salut"@, "aide"@, "prix"@, "tarif"@, "contactez"@, "site web"@,
    ]
}

/// Words that show that a message is written in French.
pub fn french_marker_list() -> (v: Vec<&'static str>)
    ensures
        v.deep_view() == french_marker_words(),
{
    let v = vec![
        "bonjour", "salut", "aide", "prix", "tarif", "contactez", "site web",
    ];
    assert(v.deep_view() =~= french_marker_words());
    v
}

/// Words that show that a message is written in Spanish.
pub open spec fn spanish_marker_words() -> Seq<Seq<char>> {
    seq![
        "hola"@, "buenos"@, "ayuda"@, "precio"@, "contacto"@, "sitio web"@,
    ]
}

/// Words that show that a message is written in Spanish.
pub fn spanish_marker_list() -> (v: Vec<&'static str>)
    ensures
        v.deep_view() == spanish_marker_words(),
{
    let v = vec![
        "hola", "buenos", "ayuda", "precio", "contacto", "sitio web",
    ];
    assert(v.deep_view() =~= spanish_marker_words());
    v
}

/// Words that show that a message is written in English.
pub open spec fn english_marker_words() -> Seq<Seq<char>> {
    seq![
        "hello"@, "help"@, "price"@, "contact"@, "website"@, "web site"@,
    ]
}

/// Words that show that a message is written in English.
pub fn english_marker_list() -> (v: Vec<&'static str>)
    ensures
        v.deep_view() == english_marker_words(),
{
    let v = vec![
        "hello", "help", "price", "contact", "website", "web site",
    ];
    assert(v.deep_view() =~= english_marker_words());
    v
}

/// Names of the Polish language.
pub open spec fn polish_name_words() -> Seq<Seq<char>> {
    seq![
        "polish"@, "polski"@, "polonais"@, "polaco"@,
    ]
}

/// Names of the Polish language.
pub fn polish_name_list() -> (v: Vec<&'static str>)
    ensures
        v.deep_view() == polish_name_words(),
{
    let v = vec![
        "polish", "polski", "polonais", "polaco",
    ];
    assert(v.deep_view() =~= polish_name_words());
    v
}

/// Names of the French language.
pub open spec fn french_name_words() -> Seq<Seq<char>> {
    seq![
        "french"@, "français"@, "francais"@, "francuski"@, "francés"@,
    ]
}

/// Names of the French language.
pub fn french_name_list() -> (v: Vec<&'static str>)
    ensures
        v.deep_view() == french_name_words(),
{
    let v = vec![
        "french", "français", "francais", "francuski", "francés",
    ];
    assert(v.deep_view() =~= french_name_words());
    v
}

/// Names of the Spanish language.
pub open spec fn spanish_name_words() -> Seq<Seq<char>> {
    seq![
        "spanish"@, "español"@, "espanol"@, "espagnol"@, "hiszpański"@,
    ]
}

/// Names of the Spanish language.
pub fn spanish_name_list() -> (v: Vec<&'static str>)
    ensures
        v.deep_view() == spanish_name_words(),
{
    let v = vec![
        "spanish", "español", "espanol", "espagnol", "hiszpański",
    ];
    assert(v.deep_view() =~= spanish_name_words());
    v
}

/// Names of the English language.
pub open spec fn english_name_words() -> Seq<Seq<char>> {
    seq![
        "english"@, "anglais"@, "angielski"@, "inglés"@, "ingles"@,
    ]
}

/// Names of the English language.
pub fn english_name_list() -> (v: Vec<&'static str>)
    ensures
        v.deep_view() == english_name_words(),
{
    let v = vec![
        "english", "anglais", "angielski", "inglés", "ingles",
    ];
    assert(v.deep_view() =~= english_name_words());
    v
}

/// Words that say yes.
pub open spec fn affirmative_words() -> Seq<Seq<char>> {
    seq![
        "yes"@, "yep"@, "yeah"@, "sure"@, "ok"@, "okay"@, "tak"@, "oui"@, "si"@, "sí"@,
    ]
}

/// Words that say yes.
pub fn affirmative_list() -> (v: Vec<&'static str>)
    ensures
        v.deep_view() == affirmative_words(),
{
    let v = vec![
        "yes", "yep", "yeah", "sure", "ok", "okay", "tak", "oui", "si", "sí",
    ];
    assert(v.deep_view() =~= affirmative_words());
    v
}

/// The topics that the agent keeps track of: kinds of site, technologies, and terms of design, marketing, mobile and backend work.
pub open spec fn topic_words() -> Seq<Seq<char>> {
    seq![
        "blog"@, "ecommerce"@, "shop"@, "store"@, "portfolio"@, "landing"@, "rust"@, "python"@,
        "javascript"@, "typescript"@, "react"@, "wordpress"@, "php"@, "java"@, "api"@,
        "database"@, "design"@, "logo"@, "branding"@, "ui"@, "ux"@, "seo"@, "marketing"@,
        "mobile"@, "android"@, "ios"@, "app"@, "backend"@, "frontend"@, "server"@, "cloud"@,
    ]
}

/// The topics that the agent keeps track of: kinds of site, technologies, and terms of design, marketing, mobile and backend work.
pub fn topic_list() -> (v: Vec<&'static str>)
    ensures
        v.deep_view() == topic_words(),
{
    let v = vec![
        "blog", "ecommerce", "shop", "store", "portfolio", "landing", "rust", "python",
        "javascript", "typescript", "react", "wordpress", "php", "java", "api", "database",
        "design", "logo", "branding", "ui", "ux", "seo", "marketing", "mobile", "android", "ios",
        "app", "backend", "frontend", "server", "cloud",
    ];
    assert(v.deep_view() =~= topic_words());
    v
}

} // verus!
