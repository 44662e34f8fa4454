//! The localization table: every phrase of the agent in English, French,
//! Polish and Spanish. A language is known by its two-letter code; any other
//! code is answered in English.

use crate::services::text::same_text;
use vstd::prelude::*;

verus! {

/// A language that the agent speaks.
#[derive(Clone, Copy, Debug, PartialEq, Eq, Structural)]
pub enum Language {
    English,
    French,
    Polish,
    Spanish,
}

/// The code of English.
pub const CODE_EN: &'static str = "en";

/// The code of French.
pub const CODE_FR: &'static str = "fr";

/// The code of Polish.
pub const CODE_PL: &'static str = "pl";

/// The code of Spanish.
pub const CODE_ES: &'static str = "es";

impl Language {
    /// The two-letter code of the language.
    pub open spec fn code_text(self) -> Seq<char> {
        match self {
            Language::English => CODE_EN@,
            Language::French => CODE_FR@,
            Language::Polish => CODE_PL@,
            Language::Spanish => CODE_ES@,
        }
    }

    /// The two-letter code of the language.
    pub fn code(self) -> (r: &'static str)
        ensures
            r@ == self.code_text(),
    {
        match self {
            Language::English => CODE_EN,
            Language::French => CODE_FR,
            Language::Polish => CODE_PL,
            Language::Spanish => CODE_ES,
        }
    }

    /// The language that a code stands for: English for a code that is
    /// none of the other three.
    pub open spec fn of_code(code: Seq<char>) -> Language {
        if code == CODE_FR@ {
            Language::French
        } else if code == CODE_PL@ {
            Language::Polish
        } else if code == CODE_ES@ {
            Language::Spanish
        } else {
            Language::English
        }
    }

    /// The language that a code stands for: English for a code that is
    /// none of the other three.
    pub fn from_code(code: &str) -> (r: Language)
        ensures
            r == Language::of_code(code@),
    {
        if same_text(code, CODE_FR) {
            Language::French
        } else if same_text(code, CODE_PL) {
            Language::Polish
        } else if same_text(code, CODE_ES) {
            Language::Spanish
        } else {
            Language::English
        }
    }
}

/// The code of every language stands for that language.
pub proof fn lemma_code_round_trip(language: Language)
    ensures
        Language::of_code(language.code_text()) == language,
{
    reveal_strlit("en");
    reveal_strlit("fr");
    reveal_strlit("pl");
    reveal_strlit("es");
    assert(CODE_EN@[0] == 'e' && CODE_FR@[0] == 'f' && CODE_PL@[0] == 'p');
    assert(CODE_ES@[1] == 's' && CODE_EN@[1] == 'n');
}

/// What the agent can say.
#[derive(Clone, Copy, Debug, PartialEq, Eq, Structural)]
pub enum MessageKey {
    /// A greeting.
    Greeting,
    /// Opens a project inquiry and asks for the visitor's name.
    WebsiteStart,
    /// What a website costs.
    PricingInfo,
    /// Offers to open a project inquiry.
    PricingOffer,
    /// How to reach the agency.
    ContactInfo,
    /// What the agent can do.
    HelpText,
    /// What the agency offers.
    ServicesList,
    /// The message was not understood.
    Fallback,
    /// Asks for the email address: the part before the visitor's name.
    AskEmailBefore,
    /// Asks for the email address: the part after the visitor's name.
    AskEmailAfter,
    /// The input is no name.
    InvalidName,
    /// Asks for the budget.
    AskBudget,
    /// The input is no email address.
    InvalidEmail,
    /// Asks for the requirements of the project.
    AskDetails,
    /// The input holds no number.
    InvalidBudget,
    /// First line of the summary of an inquiry.
    SummaryHeader,
    /// Label of the name in the summary.
    LabelName,
    /// Label of the email address in the summary.
    LabelEmail,
    /// Label of the budget in the summary.
    LabelBudget,
    /// Label of the topics in the summary.
    LabelTopics,
    /// Stands for a name that was not given.
    UnknownName,
    /// Stands for an email address or a budget that was not given.
    NotProvided,
    /// Stands for the topics where none was met.
    GenericInquiry,
    /// Last line of the summary of an inquiry.
    SummaryFooter,
    /// The visitor does not want to open an inquiry.
    ConfirmDeclined,
    /// The conversation was reset.
    ResetDone,
    /// Introduces the name of the current state.
    StatusPrefix,
    /// Reminder while a language is awaited.
    RemindLanguage,
    /// Reminder while the name is awaited.
    RemindName,
    /// Reminder while the email address is awaited.
    RemindEmail,
    /// Reminder while the budget is awaited.
    RemindBudget,
    /// Reminder while the requirements are awaited.
    RemindDetails,
    /// Reminder while the answer to the offer is awaited.
    RemindConfirmation,
}

/// Asks for a language, in every language that the agent speaks.
pub const LANGUAGE_PROMPT: &'static str =
    "Please choose your language / Choisissez votre langue / Wybierz język / Elige tu idioma: English, Français, Polski, Español.";

pub const EN_GREETING: &'static str = "Hello! How can I help you today?";

pub const EN_WEBSITE_START: &'static str =
    "Great, we would love to build your website! To get started, what is your name?";

pub const EN_PRICING_INFO: &'static str =
    "Our websites start at $1000, depending on the scope of the project.";

pub const EN_PRICING_OFFER: &'static str = "Would you like to start a project inquiry? (yes/no)";

pub const EN_CONTACT_INFO: &'static str =
    "You can reach us at contact@example.com or by phone at +1 555 0100.";

pub const EN_HELP_TEXT: &'static str =
    "I can help you with pricing, contact info, our services, or starting a website project. Type 'reset' to start over or 'status' to see where we are.";

pub const EN_SERVICES_LIST: &'static str =
    "We offer Web Development, Mobile Apps, UI/UX Design and SEO.";

pub const EN_FALLBACK: &'static str =
    "I didn't quite catch that. Could you rephrase it, or type 'help'?";

pub const EN_ASK_EMAIL_BEFORE: &'static str = "Nice to meet you, ";

pub const EN_ASK_EMAIL_AFTER: &'static str = "! What is your email address?";

pub const EN_INVALID_NAME: &'static str =
    "That does not look like a name. Please use letters, spaces, hyphens or apostrophes only.";

pub const EN_ASK_BUDGET: &'static str = "Thank you! What is your budget for this project?";

pub const EN_INVALID_EMAIL: &'static str =
    "That does not look like an email address. Please enter one that contains '@'.";

pub const EN_ASK_DETAILS: &'static str = "Got it. Please describe your project requirements.";

pub const EN_INVALID_BUDGET: &'static str =
    "Please give your budget with a number, for example 5000.";

pub const EN_SUMMARY_HEADER: &'static str =
    "REPORT GENERATED. Here is the summary of your request:";

pub const EN_LABEL_NAME: &'static str = "Name: ";

pub const EN_LABEL_EMAIL: &'static str = "Email: ";

pub const EN_LABEL_BUDGET: &'static str = "Budget: ";

pub const EN_LABEL_TOPICS: &'static str = "Topics: ";

pub const EN_UNKNOWN_NAME: &'static str = "Unknown";

pub const EN_NOT_PROVIDED: &'static str = "N/A";

pub const EN_GENERIC_INQUIRY: &'static str = "General inquiry";

pub const EN_SUMMARY_FOOTER: &'static str = "We will get back to you soon.";

pub const EN_CONFIRM_DECLINED: &'static str =
    "No problem. Let me know if there is anything else I can do for you.";

pub const EN_RESET_DONE: &'static str = "The conversation has been reset. Let's start over.";

pub const EN_STATUS_PREFIX: &'static str = "Current step: ";

pub const EN_REMIND_LANGUAGE: &'static str = "Please choose a language to continue.";

pub const EN_REMIND_NAME: &'static str = "Now, back to your project: what is your name?";

pub const EN_REMIND_EMAIL: &'static str = "Now, back to your project: what is your email address?";

pub const EN_REMIND_BUDGET: &'static str = "Now, back to your project: what is your budget?";

pub const EN_REMIND_DETAILS: &'static str =
    "Now, back to your project: please describe your requirements.";

pub const EN_REMIND_CONFIRMATION: &'static str =
    "So, would you like to start a project inquiry? (yes/no)";

pub const FR_GREETING: &'static str = "Bonjour ! Comment puis-je vous aider aujourd'hui ?";

pub const FR_WEBSITE_START: &'static str =
    "Parfait, nous serons ravis de créer votre site web ! Pour commencer, quel est votre nom ?";

pub const FR_PRICING_INFO: &'static str =
    "Nos sites web commencent à 1000 $, selon l'ampleur du projet.";

pub const FR_PRICING_OFFER: &'static str =
    "Souhaitez-vous commencer une demande de projet ? (oui/non)";

pub const FR_CONTACT_INFO: &'static str =
    "Vous pouvez nous écrire à contact@example.com ou nous appeler au +1 555 0100.";

pub const FR_HELP_TEXT: &'static str =
    "Je peux vous renseigner sur les tarifs, nos coordonnées, nos services, ou démarrer un projet de site web. Tapez 'reset' pour recommencer ou 'status' pour voir où nous en sommes.";

pub const FR_SERVICES_LIST: &'static str =
    "Nous proposons le développement web, les applications mobiles, le design UI/UX et le SEO.";

pub const FR_FALLBACK: &'static str =
    "Je n'ai pas bien compris. Pouvez-vous reformuler, ou taper 'aide' ?";

pub const FR_ASK_EMAIL_BEFORE: &'static str = "Enchanté, ";

pub const FR_ASK_EMAIL_AFTER: &'static str = " ! Quelle est votre adresse e-mail ?";

pub const FR_INVALID_NAME: &'static str =
    "Cela ne ressemble pas à un nom. Utilisez uniquement des lettres, espaces, tirets ou apostrophes.";

pub const FR_ASK_BUDGET: &'static str = "Merci ! Quel est votre budget pour ce projet ?";

pub const FR_INVALID_EMAIL: &'static str =
    "Cela ne ressemble pas à une adresse e-mail. Elle doit contenir '@'.";

pub const FR_ASK_DETAILS: &'static str = "Très bien. Décrivez les besoins de votre projet.";

pub const FR_INVALID_BUDGET: &'static str =
    "Indiquez votre budget avec un nombre, par exemple 5000.";

pub const FR_SUMMARY_HEADER: &'static str = "RAPPORT GÉNÉRÉ. Voici le résumé de votre demande :";

pub const FR_LABEL_NAME: &'static str = "Nom : ";

pub const FR_LABEL_EMAIL: &'static str = "E-mail : ";

pub const FR_LABEL_BUDGET: &'static str = "Budget : ";

pub const FR_LABEL_TOPICS: &'static str = "Sujets : ";

pub const FR_UNKNOWN_NAME: &'static str = "Inconnu";

pub const FR_NOT_PROVIDED: &'static str = "N/D";

pub const FR_GENERIC_INQUIRY: &'static str = "Demande générale";

pub const FR_SUMMARY_FOOTER: &'static str = "Nous vous recontacterons bientôt.";

pub const FR_CONFIRM_DECLINED: &'static str =
    "Pas de problème. Dites-moi si je peux faire autre chose pour vous.";

pub const FR_RESET_DONE: &'static str = "La conversation a été réinitialisée. Recommençons.";

pub const FR_STATUS_PREFIX: &'static str = "Étape actuelle : ";

pub const FR_REMIND_LANGUAGE: &'static str = "Veuillez choisir une langue pour continuer.";

pub const FR_REMIND_NAME: &'static str = "Revenons à votre projet : quel est votre nom ?";

pub const FR_REMIND_EMAIL: &'static str =
    "Revenons à votre projet : quelle est votre adresse e-mail ?";

pub const FR_REMIND_BUDGET: &'static str = "Revenons à votre projet : quel est votre budget ?";

pub const FR_REMIND_DETAILS: &'static str = "Revenons à votre projet : décrivez vos besoins.";

pub const FR_REMIND_CONFIRMATION: &'static str =
    "Alors, souhaitez-vous commencer une demande de projet ? (oui/non)";

pub const PL_GREETING: &'static str = "Cześć! W czym mogę pomóc?";

pub const PL_WEBSITE_START: &'static str =
    "Chętnie pomożemy stworzyć Twoją stronę! Na początek: jak masz na imię?";

pub const PL_PRICING_INFO: &'static str =
    "Nasze strony internetowe zaczynają się od 1000 $, zależnie od zakresu projektu.";

pub const PL_PRICING_OFFER: &'static str = "Czy chcesz rozpocząć zapytanie o projekt? (tak/nie)";

pub const PL_CONTACT_INFO: &'static str =
    "Napisz do nas na contact@example.com lub zadzwoń pod +1 555 0100.";

pub const PL_HELP_TEXT: &'static str =
    "Mogę pomóc w sprawie cen, kontaktu, naszych usług lub rozpoczęcia projektu strony. Wpisz 'reset', aby zacząć od nowa, lub 'status', aby zobaczyć, na jakim jesteśmy etapie.";

pub const PL_SERVICES_LIST: &'static str =
    "Oferujemy tworzenie stron internetowych, aplikacje mobilne, projektowanie UI/UX oraz SEO.";

pub const PL_FALLBACK: &'static str = "Nie do końca rozumiem. Spróbuj inaczej lub wpisz 'pomoc'.";

pub const PL_ASK_EMAIL_BEFORE: &'static str = "Miło Cię poznać, ";

pub const PL_ASK_EMAIL_AFTER: &'static str = "! Jaki jest Twój adres e-mail?";

pub const PL_INVALID_NAME: &'static str =
    "To nie wygląda na imię. Użyj tylko liter, spacji, myślników lub apostrofów.";

pub const PL_ASK_BUDGET: &'static str = "Dziękuję! Jaki jest Twój budżet na ten projekt?";

pub const PL_INVALID_EMAIL: &'static str =
    "To nie wygląda na adres e-mail. Adres musi zawierać '@'.";

pub const PL_ASK_DETAILS: &'static str = "Rozumiem. Opisz wymagania swojego projektu.";

pub const PL_INVALID_BUDGET: &'static str = "Podaj budżet liczbą, na przykład 5000.";

pub const PL_SUMMARY_HEADER: &'static str =
    "RAPORT WYGENEROWANY. Oto podsumowanie Twojego zapytania:";

pub const PL_LABEL_NAME: &'static str = "Imię: ";

pub const PL_LABEL_EMAIL: &'static str = "E-mail: ";

pub const PL_LABEL_BUDGET: &'static str = "Budżet: ";

pub const PL_LABEL_TOPICS: &'static str = "Tematy: ";

pub const PL_UNKNOWN_NAME: &'static str = "Nieznane";

pub const PL_NOT_PROVIDED: &'static str = "brak";

pub const PL_GENERIC_INQUIRY: &'static str = "Zapytanie ogólne";

pub const PL_SUMMARY_FOOTER: &'static str = "Wkrótce się odezwiemy.";

pub const PL_CONFIRM_DECLINED: &'static str =
    "Nie ma sprawy. Daj znać, jeśli mogę jeszcze w czymś pomóc.";

pub const PL_RESET_DONE: &'static str = "Rozmowa została zresetowana. Zacznijmy od nowa.";

pub const PL_STATUS_PREFIX: &'static str = "Obecny etap: ";

pub const PL_REMIND_LANGUAGE: &'static str = "Wybierz język, aby kontynuować.";

pub const PL_REMIND_NAME: &'static str = "Wracając do projektu: jak masz na imię?";

pub const PL_REMIND_EMAIL: &'static str = "Wracając do projektu: jaki jest Twój adres e-mail?";

pub const PL_REMIND_BUDGET: &'static str = "Wracając do projektu: jaki jest Twój budżet?";

pub const PL_REMIND_DETAILS: &'static str = "Wracając do projektu: opisz swoje wymagania.";

pub const PL_REMIND_CONFIRMATION: &'static str =
    "Czy chcesz więc rozpocząć zapytanie o projekt? (tak/nie)";

pub const ES_GREETING: &'static str = "¡Hola! ¿En qué puedo ayudarte hoy?";

pub const ES_WEBSITE_START: &'static str =
    "¡Genial, nos encantará crear tu sitio web! Para empezar, ¿cómo te llamas?";

pub const ES_PRICING_INFO: &'static str =
    "Nuestros sitios web empiezan en 1000 $, según el alcance del proyecto.";

pub const ES_PRICING_OFFER: &'static str = "¿Quieres iniciar una solicitud de proyecto? (sí/no)";

pub const ES_CONTACT_INFO: &'static str =
    "Puedes escribirnos a contact@example.com o llamarnos al +1 555 0100.";

pub const ES_HELP_TEXT: &'static str =
    "Puedo ayudarte con precios, datos de contacto, nuestros servicios o con el inicio de un proyecto de sitio web. Escribe 'reset' para empezar de nuevo o 'status' para ver dónde estamos.";

pub const ES_SERVICES_LIST: &'static str =
    "Ofrecemos desarrollo web, aplicaciones móviles, diseño UI/UX y SEO.";

pub const ES_FALLBACK: &'static str =
    "No te he entendido bien. ¿Puedes decirlo de otra forma, o escribir 'ayuda'?";

pub const ES_ASK_EMAIL_BEFORE: &'static str = "Encantado de conocerte, ";

pub const ES_ASK_EMAIL_AFTER: &'static str = ". ¿Cuál es tu correo electrónico?";

pub const ES_INVALID_NAME: &'static str =
    "Eso no parece un nombre. Usa solo letras, espacios, guiones o apóstrofos.";

pub const ES_ASK_BUDGET: &'static str = "¡Gracias! ¿Cuál es tu presupuesto para este proyecto?";

pub const ES_INVALID_EMAIL: &'static str =
    "Eso no parece un correo electrónico. Debe contener '@'.";

pub const ES_ASK_DETAILS: &'static str = "Entendido. Describe los requisitos de tu proyecto.";

pub const ES_INVALID_BUDGET: &'static str =
    "Indica tu presupuesto con un número, por ejemplo 5000.";

pub const ES_SUMMARY_HEADER: &'static str = "INFORME GENERADO. Este es el resumen de tu solicitud:";

pub const ES_LABEL_NAME: &'static str = "Nombre: ";

pub const ES_LABEL_EMAIL: &'static str = "Correo: ";

pub const ES_LABEL_BUDGET: &'static str = "Presupuesto: ";

pub const ES_LABEL_TOPICS: &'static str = "Temas: ";

pub const ES_UNKNOWN_NAME: &'static str = "Desconocido";

pub const ES_NOT_PROVIDED: &'static str = "N/D";

pub const ES_GENERIC_INQUIRY: &'static str = "Consulta general";

pub const ES_SUMMARY_FOOTER: &'static str = "Nos pondremos en contacto contigo pronto.";

pub const ES_CONFIRM_DECLINED: &'static str =
    "No hay problema. Avísame si puedo ayudarte en algo más.";

pub const ES_RESET_DONE: &'static str = "La conversación se ha reiniciado. Empecemos de nuevo.";

pub const ES_STATUS_PREFIX: &'static str = "Paso actual: ";

pub const ES_REMIND_LANGUAGE: &'static str = "Elige un idioma para continuar.";

pub const ES_REMIND_NAME: &'static str = "Volviendo a tu proyecto: ¿cómo te llamas?";

pub const ES_REMIND_EMAIL: &'static str =
    "Volviendo a tu proyecto: ¿cuál es tu correo electrónico?";

pub const ES_REMIND_BUDGET: &'static str = "Volviendo a tu proyecto: ¿cuál es tu presupuesto?";

pub const ES_REMIND_DETAILS: &'static str = "Volviendo a tu proyecto: describe tus requisitos.";

pub const ES_REMIND_CONFIRMATION: &'static str =
    "Entonces, ¿quieres iniciar una solicitud de proyecto? (sí/no)";

/// The English phrases.
pub open spec fn english_phrase(key: MessageKey) -> Seq<char> {
    match key {
        MessageKey::Greeting => EN_GREETING@,
        MessageKey::WebsiteStart => EN_WEBSITE_START@,
        MessageKey::PricingInfo => EN_PRICING_INFO@,
        MessageKey::PricingOffer => EN_PRICING_OFFER@,
        MessageKey::ContactInfo => EN_CONTACT_INFO@,
        MessageKey::HelpText => EN_HELP_TEXT@,
        MessageKey::ServicesList => EN_SERVICES_LIST@,
        MessageKey::Fallback => EN_FALLBACK@,
        MessageKey::AskEmailBefore => EN_ASK_EMAIL_BEFORE@,
        MessageKey::AskEmailAfter => EN_ASK_EMAIL_AFTER@,
        MessageKey::InvalidName => EN_INVALID_NAME@,
        MessageKey::AskBudget => EN_ASK_BUDGET@,
        MessageKey::InvalidEmail => EN_INVALID_EMAIL@,
        MessageKey::AskDetails => EN_ASK_DETAILS@,
        MessageKey::InvalidBudget => EN_INVALID_BUDGET@,
        MessageKey::SummaryHeader => EN_SUMMARY_HEADER@,
        MessageKey::LabelName => EN_LABEL_NAME@,
        MessageKey::LabelEmail => EN_LABEL_EMAIL@,
        MessageKey::LabelBudget => EN_LABEL_BUDGET@,
        MessageKey::LabelTopics => EN_LABEL_TOPICS@,
        MessageKey::UnknownName => EN_UNKNOWN_NAME@,
        MessageKey::NotProvided => EN_NOT_PROVIDED@,
        MessageKey::GenericInquiry => EN_GENERIC_INQUIRY@,
        MessageKey::SummaryFooter => EN_SUMMARY_FOOTER@,
        MessageKey::ConfirmDeclined => EN_CONFIRM_DECLINED@,
        MessageKey::ResetDone => EN_RESET_DONE@,
        MessageKey::StatusPrefix => EN_STATUS_PREFIX@,
        MessageKey::RemindLanguage => EN_REMIND_LANGUAGE@,
        MessageKey::RemindName => EN_REMIND_NAME@,
        MessageKey::RemindEmail => EN_REMIND_EMAIL@,
        MessageKey::RemindBudget => EN_REMIND_BUDGET@,
        MessageKey::RemindDetails => EN_REMIND_DETAILS@,
        MessageKey::RemindConfirmation => EN_REMIND_CONFIRMATION@,
    }
}

/// The English phrases.
pub fn english(key: MessageKey) -> (r: &'static str)
    ensures
        r@ == english_phrase(key),
{
    match key {
        MessageKey::Greeting => EN_GREETING,
        MessageKey::WebsiteStart => EN_WEBSITE_START,
        MessageKey::PricingInfo => EN_PRICING_INFO,
        MessageKey::PricingOffer => EN_PRICING_OFFER,
        MessageKey::ContactInfo => EN_CONTACT_INFO,
        MessageKey::HelpText => EN_HELP_TEXT,
        MessageKey::ServicesList => EN_SERVICES_LIST,
        MessageKey::Fallback => EN_FALLBACK,
        MessageKey::AskEmailBefore => EN_ASK_EMAIL_BEFORE,
        MessageKey::AskEmailAfter => EN_ASK_EMAIL_AFTER,
        MessageKey::InvalidName => EN_INVALID_NAME,
        MessageKey::AskBudget => EN_ASK_BUDGET,
        MessageKey::InvalidEmail => EN_INVALID_EMAIL,
        MessageKey::AskDetails => EN_ASK_DETAILS,
        MessageKey::InvalidBudget => EN_INVALID_BUDGET,
        MessageKey::SummaryHeader => EN_SUMMARY_HEADER,
        MessageKey::LabelName => EN_LABEL_NAME,
        MessageKey::LabelEmail => EN_LABEL_EMAIL,
        MessageKey::LabelBudget => EN_LABEL_BUDGET,
        MessageKey::LabelTopics => EN_LABEL_TOPICS,
        MessageKey::UnknownName => EN_UNKNOWN_NAME,
        MessageKey::NotProvided => EN_NOT_PROVIDED,
        MessageKey::GenericInquiry => EN_GENERIC_INQUIRY,
        MessageKey::SummaryFooter => EN_SUMMARY_FOOTER,
        MessageKey::ConfirmDeclined => EN_CONFIRM_DECLINED,
        MessageKey::ResetDone => EN_RESET_DONE,
        MessageKey::StatusPrefix => EN_STATUS_PREFIX,
        MessageKey::RemindLanguage => EN_REMIND_LANGUAGE,
        MessageKey::RemindName => EN_REMIND_NAME,
        MessageKey::RemindEmail => EN_REMIND_EMAIL,
        MessageKey::RemindBudget => EN_REMIND_BUDGET,
        MessageKey::RemindDetails => EN_REMIND_DETAILS,
        MessageKey::RemindConfirmation => EN_REMIND_CONFIRMATION,
    }
}

/// The French phrases.
pub open spec fn french_phrase(key: MessageKey) -> Seq<char> {
    match key {
        MessageKey::Greeting => FR_GREETING@,
        MessageKey::WebsiteStart => FR_WEBSITE_START@,
        MessageKey::PricingInfo => FR_PRICING_INFO@,
        MessageKey::PricingOffer => FR_PRICING_OFFER@,
        MessageKey::ContactInfo => FR_CONTACT_INFO@,
        MessageKey::HelpText => FR_HELP_TEXT@,
        MessageKey::ServicesList => FR_SERVICES_LIST@,
        MessageKey::Fallback => FR_FALLBACK@,
        MessageKey::AskEmailBefore => FR_ASK_EMAIL_BEFORE@,
        MessageKey::AskEmailAfter => FR_ASK_EMAIL_AFTER@,
        MessageKey::InvalidName => FR_INVALID_NAME@,
        MessageKey::AskBudget => FR_ASK_BUDGET@,
        MessageKey::InvalidEmail => FR_INVALID_EMAIL@,
        MessageKey::AskDetails => FR_ASK_DETAILS@,
        MessageKey::InvalidBudget => FR_INVALID_BUDGET@,
        MessageKey::SummaryHeader => FR_SUMMARY_HEADER@,
        MessageKey::LabelName => FR_LABEL_NAME@,
        MessageKey::LabelEmail => FR_LABEL_EMAIL@,
        MessageKey::LabelBudget => FR_LABEL_BUDGET@,
        MessageKey::LabelTopics => FR_LABEL_TOPICS@,
        MessageKey::UnknownName => FR_UNKNOWN_NAME@,
        MessageKey::NotProvided => FR_NOT_PROVIDED@,
        MessageKey::GenericInquiry => FR_GENERIC_INQUIRY@,
        MessageKey::SummaryFooter => FR_SUMMARY_FOOTER@,
        MessageKey::ConfirmDeclined => FR_CONFIRM_DECLINED@,
        MessageKey::ResetDone => FR_RESET_DONE@,
        MessageKey::StatusPrefix => FR_STATUS_PREFIX@,
        MessageKey::RemindLanguage => FR_REMIND_LANGUAGE@,
        MessageKey::RemindName => FR_REMIND_NAME@,
        MessageKey::RemindEmail => FR_REMIND_EMAIL@,
        MessageKey::RemindBudget => FR_REMIND_BUDGET@,
        MessageKey::RemindDetails => FR_REMIND_DETAILS@,
        MessageKey::RemindConfirmation => FR_REMIND_CONFIRMATION@,
    }
}

/// The French phrases.
pub fn french(key: MessageKey) -> (r: &'static str)
    ensures
        r@ == french_phrase(key),
{
    match key {
        MessageKey::Greeting => FR_GREETING,
        MessageKey::WebsiteStart => FR_WEBSITE_START,
        MessageKey::PricingInfo => FR_PRICING_INFO,
        MessageKey::PricingOffer => FR_PRICING_OFFER,
        MessageKey::ContactInfo => FR_CONTACT_INFO,
        MessageKey::HelpText => FR_HELP_TEXT,
        MessageKey::ServicesList => FR_SERVICES_LIST,
        MessageKey::Fallback => FR_FALLBACK,
        MessageKey::AskEmailBefore => FR_ASK_EMAIL_BEFORE,
        MessageKey::AskEmailAfter => FR_ASK_EMAIL_AFTER,
        MessageKey::InvalidName => FR_INVALID_NAME,
        MessageKey::AskBudget => FR_ASK_BUDGET,
        MessageKey::InvalidEmail => FR_INVALID_EMAIL,
        MessageKey::AskDetails => FR_ASK_DETAILS,
        MessageKey::InvalidBudget => FR_INVALID_BUDGET,
        MessageKey::SummaryHeader => FR_SUMMARY_HEADER,
        MessageKey::LabelName => FR_LABEL_NAME,
        MessageKey::LabelEmail => FR_LABEL_EMAIL,
        MessageKey::LabelBudget => FR_LABEL_BUDGET,
        MessageKey::LabelTopics => FR_LABEL_TOPICS,
        MessageKey::UnknownName => FR_UNKNOWN_NAME,
        MessageKey::NotProvided => FR_NOT_PROVIDED,
        MessageKey::GenericInquiry => FR_GENERIC_INQUIRY,
        MessageKey::SummaryFooter => FR_SUMMARY_FOOTER,
        MessageKey::ConfirmDeclined => FR_CONFIRM_DECLINED,
        MessageKey::ResetDone => FR_RESET_DONE,
        MessageKey::StatusPrefix => FR_STATUS_PREFIX,
        MessageKey::RemindLanguage => FR_REMIND_LANGUAGE,
        MessageKey::RemindName => FR_REMIND_NAME,
        MessageKey::RemindEmail => FR_REMIND_EMAIL,
        MessageKey::RemindBudget => FR_REMIND_BUDGET,
        MessageKey::RemindDetails => FR_REMIND_DETAILS,
        MessageKey::RemindConfirmation => FR_REMIND_CONFIRMATION,
    }
}

/// The Polish phrases.
pub open spec fn polish_phrase(key: MessageKey) -> Seq<char> {
    match key {
        MessageKey::Greeting => PL_GREETING@,
        MessageKey::WebsiteStart => PL_WEBSITE_START@,
        MessageKey::PricingInfo => PL_PRICING_INFO@,
        MessageKey::PricingOffer => PL_PRICING_OFFER@,
        MessageKey::ContactInfo => PL_CONTACT_INFO@,
        MessageKey::HelpText => PL_HELP_TEXT@,
        MessageKey::ServicesList => PL_SERVICES_LIST@,
        MessageKey::Fallback => PL_FALLBACK@,
        MessageKey::AskEmailBefore => PL_ASK_EMAIL_BEFORE@,
        MessageKey::AskEmailAfter => PL_ASK_EMAIL_AFTER@,
        MessageKey::InvalidName => PL_INVALID_NAME@,
        MessageKey::AskBudget => PL_ASK_BUDGET@,
        MessageKey::InvalidEmail => PL_INVALID_EMAIL@,
        MessageKey::AskDetails => PL_ASK_DETAILS@,
        MessageKey::InvalidBudget => PL_INVALID_BUDGET@,
        MessageKey::SummaryHeader => PL_SUMMARY_HEADER@,
        MessageKey::LabelName => PL_LABEL_NAME@,
        MessageKey::LabelEmail => PL_LABEL_EMAIL@,
        MessageKey::LabelBudget => PL_LABEL_BUDGET@,
        MessageKey::LabelTopics => PL_LABEL_TOPICS@,
        MessageKey::UnknownName => PL_UNKNOWN_NAME@,
        MessageKey::NotProvided => PL_NOT_PROVIDED@,
        MessageKey::GenericInquiry => PL_GENERIC_INQUIRY@,
        MessageKey::SummaryFooter => PL_SUMMARY_FOOTER@,
        MessageKey::ConfirmDeclined => PL_CONFIRM_DECLINED@,
        MessageKey::ResetDone => PL_RESET_DONE@,
        MessageKey::StatusPrefix => PL_STATUS_PREFIX@,
        MessageKey::RemindLanguage => PL_REMIND_LANGUAGE@,
        MessageKey::RemindName => PL_REMIND_NAME@,
        MessageKey::RemindEmail => PL_REMIND_EMAIL@,
        MessageKey::RemindBudget => PL_REMIND_BUDGET@,
        MessageKey::RemindDetails => PL_REMIND_DETAILS@,
        MessageKey::RemindConfirmation => PL_REMIND_CONFIRMATION@,
    }
}

/// The Polish phrases.
pub fn polish(key: MessageKey) -> (r: &'static str)
    ensures
        r@ == polish_phrase(key),
{
    match key {
        MessageKey::Greeting => PL_GREETING,
        MessageKey::WebsiteStart => PL_WEBSITE_START,
        MessageKey::PricingInfo => PL_PRICING_INFO,
        MessageKey::PricingOffer => PL_PRICING_OFFER,
        MessageKey::ContactInfo => PL_CONTACT_INFO,
        MessageKey::HelpText => PL_HELP_TEXT,
        MessageKey::ServicesList => PL_SERVICES_LIST,
        MessageKey::Fallback => PL_FALLBACK,
        MessageKey::AskEmailBefore => PL_ASK_EMAIL_BEFORE,
        MessageKey::AskEmailAfter => PL_ASK_EMAIL_AFTER,
        MessageKey::InvalidName => PL_INVALID_NAME,
        MessageKey::AskBudget => PL_ASK_BUDGET,
        MessageKey::InvalidEmail => PL_INVALID_EMAIL,
        MessageKey::AskDetails => PL_ASK_DETAILS,
        MessageKey::InvalidBudget => PL_INVALID_BUDGET,
        MessageKey::SummaryHeader => PL_SUMMARY_HEADER,
        MessageKey::LabelName => PL_LABEL_NAME,
        MessageKey::LabelEmail => PL_LABEL_EMAIL,
        MessageKey::LabelBudget => PL_LABEL_BUDGET,
        MessageKey::LabelTopics => PL_LABEL_TOPICS,
        MessageKey::UnknownName => PL_UNKNOWN_NAME,
        MessageKey::NotProvided => PL_NOT_PROVIDED,
        MessageKey::GenericInquiry => PL_GENERIC_INQUIRY,
        MessageKey::SummaryFooter => PL_SUMMARY_FOOTER,
        MessageKey::ConfirmDeclined => PL_CONFIRM_DECLINED,
        MessageKey::ResetDone => PL_RESET_DONE,
        MessageKey::StatusPrefix => PL_STATUS_PREFIX,
        MessageKey::RemindLanguage => PL_REMIND_LANGUAGE,
        MessageKey::RemindName => PL_REMIND_NAME,
        MessageKey::RemindEmail => PL_REMIND_EMAIL,
        MessageKey::RemindBudget => PL_REMIND_BUDGET,
        MessageKey::RemindDetails => PL_REMIND_DETAILS,
        MessageKey::RemindConfirmation => PL_REMIND_CONFIRMATION,
    }
}

/// The Spanish phrases.
pub open spec fn spanish_phrase(key: MessageKey) -> Seq<char> {
    match key {
        MessageKey::Greeting => ES_GREETING@,
        MessageKey::WebsiteStart => ES_WEBSITE_START@,
        MessageKey::PricingInfo => ES_PRICING_INFO@,
        MessageKey::PricingOffer => ES_PRICING_OFFER@,
        MessageKey::ContactInfo => ES_CONTACT_INFO@,
        MessageKey::HelpText => ES_HELP_TEXT@,
        MessageKey::ServicesList => ES_SERVICES_LIST@,
        MessageKey::Fallback => ES_FALLBACK@,
        MessageKey::AskEmailBefore => ES_ASK_EMAIL_BEFORE@,
        MessageKey::AskEmailAfter => ES_ASK_EMAIL_AFTER@,
        MessageKey::InvalidName => ES_INVALID_NAME@,
        MessageKey::AskBudget => ES_ASK_BUDGET@,
        MessageKey::InvalidEmail => ES_INVALID_EMAIL@,
        MessageKey::AskDetails => ES_ASK_DETAILS@,
        MessageKey::InvalidBudget => ES_INVALID_BUDGET@,
        MessageKey::SummaryHeader => ES_SUMMARY_HEADER@,
        MessageKey::LabelName => ES_LABEL_NAME@,
        MessageKey::LabelEmail => ES_LABEL_EMAIL@,
        MessageKey::LabelBudget => ES_LABEL_BUDGET@,
        MessageKey::LabelTopics => ES_LABEL_TOPICS@,
        MessageKey::UnknownName => ES_UNKNOWN_NAME@,
        MessageKey::NotProvided => ES_NOT_PROVIDED@,
        MessageKey::GenericInquiry => ES_GENERIC_INQUIRY@,
        MessageKey::SummaryFooter => ES_SUMMARY_FOOTER@,
        MessageKey::ConfirmDeclined => ES_CONFIRM_DECLINED@,
        MessageKey::ResetDone => ES_RESET_DONE@,
        MessageKey::StatusPrefix => ES_STATUS_PREFIX@,
        MessageKey::RemindLanguage => ES_REMIND_LANGUAGE@,
        MessageKey::RemindName => ES_REMIND_NAME@,
        MessageKey::RemindEmail => ES_REMIND_EMAIL@,
        MessageKey::RemindBudget => ES_REMIND_BUDGET@,
        MessageKey::RemindDetails => ES_REMIND_DETAILS@,
        MessageKey::RemindConfirmation => ES_REMIND_CONFIRMATION@,
    }
}

/// The Spanish phrases.
pub fn spanish(key: MessageKey) -> (r: &'static str)
    ensures
        r@ == spanish_phrase(key),
{
    match key {
        MessageKey::Greeting => ES_GREETING,
        MessageKey::WebsiteStart => ES_WEBSITE_START,
        MessageKey::PricingInfo => ES_PRICING_INFO,
        MessageKey::PricingOffer => ES_PRICING_OFFER,
        MessageKey::ContactInfo => ES_CONTACT_INFO,
        MessageKey::HelpText => ES_HELP_TEXT,
        MessageKey::ServicesList => ES_SERVICES_LIST,
        MessageKey::Fallback => ES_FALLBACK,
        MessageKey::AskEmailBefore => ES_ASK_EMAIL_BEFORE,
        MessageKey::AskEmailAfter => ES_ASK_EMAIL_AFTER,
        MessageKey::InvalidName => ES_INVALID_NAME,
        MessageKey::AskBudget => ES_ASK_BUDGET,
        MessageKey::InvalidEmail => ES_INVALID_EMAIL,
        MessageKey::AskDetails => ES_ASK_DETAILS,
        MessageKey::InvalidBudget => ES_INVALID_BUDGET,
        MessageKey::SummaryHeader => ES_SUMMARY_HEADER,
        MessageKey::LabelName => ES_LABEL_NAME,
        MessageKey::LabelEmail => ES_LABEL_EMAIL,
        MessageKey::LabelBudget => ES_LABEL_BUDGET,
        MessageKey::LabelTopics => ES_LABEL_TOPICS,
        MessageKey::UnknownName => ES_UNKNOWN_NAME,
        MessageKey::NotProvided => ES_NOT_PROVIDED,
        MessageKey::GenericInquiry => ES_GENERIC_INQUIRY,
        MessageKey::SummaryFooter => ES_SUMMARY_FOOTER,
        MessageKey::ConfirmDeclined => ES_CONFIRM_DECLINED,
        MessageKey::ResetDone => ES_RESET_DONE,
        MessageKey::StatusPrefix => ES_STATUS_PREFIX,
        MessageKey::RemindLanguage => ES_REMIND_LANGUAGE,
        MessageKey::RemindName => ES_REMIND_NAME,
        MessageKey::RemindEmail => ES_REMIND_EMAIL,
        MessageKey::RemindBudget => ES_REMIND_BUDGET,
        MessageKey::RemindDetails => ES_REMIND_DETAILS,
        MessageKey::RemindConfirmation => ES_REMIND_CONFIRMATION,
    }
}

/// The phrase for `key` in `language`.
pub open spec fn phrase(language: Language, key: MessageKey) -> Seq<char> {
    match language {
        Language::English => english_phrase(key),
        Language::French => french_phrase(key),
        Language::Polish => polish_phrase(key),
        Language::Spanish => spanish_phrase(key),
    }
}

/// The phrase for `key` in `language`.
pub fn phrase_in(language: Language, key: MessageKey) -> (r: &'static str)
    ensures
        r@ == phrase(language, key),
{
    match language {
        Language::English => english(key),
        Language::French => french(key),
        Language::Polish => polish(key),
        Language::Spanish => spanish(key),
    }
}

/// The phrase for `key` in the language that `code` stands for.
pub open spec fn localized(code: Seq<char>, key: MessageKey) -> Seq<char> {
    phrase(Language::of_code(code), key)
}

/// The phrase for `key` in the language that `code` stands for; the
/// English one where the code is not known.
pub fn localize(code: &str, key: MessageKey) -> (r: &'static str)
    ensures
        r@ == localized(code@, key),
{
    phrase_in(Language::from_code(code), key)
}

/// A code that is none of `fr`, `pl` and `es` is answered in English.
pub proof fn lemma_unknown_code_is_english(code: Seq<char>, key: MessageKey)
    requires
        code != CODE_FR@,
        code != CODE_PL@,
        code != CODE_ES@,
    ensures
        localized(code, key) == english_phrase(key),
{
}

} // verus!
