//! The messages that the service shows its users.
use vstd::prelude::*;
use crate::consts;
use crate::text::{append_u64, decimal_nat};
use vstd::string::*;

verus! {

/// A message shown to the user; `to_string` gives its (Russian) text.
#[derive(Clone, Copy, Debug, PartialEq, Eq, Structural)]
pub enum ErrMsg {
    BadFileData,
    EmailAlreadyConfirm,
    EmailNotBeEmpty,
    EmailNotCorrect,
    LoginOrPasswordNotCorrect,
    NeedAcceptAgreement,
    NeedAcceptPrivacyPolicy,
    NoAccessTeamMemberOnly,
    NoRules,
    NotCorrectMultipartForm,
    NotCorrectVerifyEmailCode,
    NotFoundItem,
    NotFoundUser,
    PasswordIsShort,
    PasswordsNotEquals,
    TokenExpired,
    TokenIsNotRefresh,
    TokenNotValid,
    UndefinedTypeImage,
    VerifyCodeNotBeEmpty,
    VerifyYourEmail,
}

impl ErrMsg {
    /// The text of the message.
    pub open spec fn text(self) -> Seq<char> {
        match self {
            ErrMsg::BadFileData => "не верные данные файла"@,
            ErrMsg::EmailAlreadyConfirm => "е-мэйл уже подтверждён"@,
            ErrMsg::EmailNotBeEmpty => "отсутствует е-мэйл"@,
            ErrMsg::EmailNotCorrect => "е-мэйл не корректен"@,
            ErrMsg::LoginOrPasswordNotCorrect => "логин или пароль не верные"@,
            ErrMsg::NeedAcceptAgreement => "необходимо принять условия оферты"@,
            ErrMsg::NeedAcceptPrivacyPolicy => "необходимо принять политику конфиденциальности"@,
            ErrMsg::NoAccessTeamMemberOnly =>
                "у вас нет доступа к данному действию, только для участника команды"@,
            ErrMsg::NoRules => "у вас нет прав на данное действие"@,
            ErrMsg::NotCorrectMultipartForm => "ошибка в обработки формы"@,
            ErrMsg::NotCorrectVerifyEmailCode => "проверочный код е-мэйла не верный"@,
            ErrMsg::NotFoundItem => "запись не найдена"@,
            ErrMsg::NotFoundUser => "пользователь не найден"@,
            ErrMsg::PasswordIsShort => "пароль слишком короткий, нужно более или равно "@
                + decimal_nat(consts::MIN_PASSWORD_LEN as nat),
            ErrMsg::PasswordsNotEquals => "пароли не равны"@,
            ErrMsg::TokenExpired => "токен просрочен"@,
            ErrMsg::TokenIsNotRefresh => "токен не является токеном обновления"@,
            ErrMsg::TokenNotValid => "токен не действителен"@,
            ErrMsg::UndefinedTypeImage => "не известный тип изображения"@,
            ErrMsg::VerifyCodeNotBeEmpty => "проверочный код для е-мэйла отсутствует"@,
            ErrMsg::VerifyYourEmail => "е-мэйл необходимо верифицировать"@,
        }
    }

    /// The text of the message.
    pub fn to_string(&self) -> (r: String)
        ensures
            r@ == self.text(),
    {
        match self {
            ErrMsg::BadFileData => String::from_str("не верные данные файла"),
            ErrMsg::EmailAlreadyConfirm => String::from_str("е-мэйл уже подтверждён"),
            ErrMsg::EmailNotBeEmpty => String::from_str("отсутствует е-мэйл"),
            ErrMsg::EmailNotCorrect => String::from_str("е-мэйл не корректен"),
            ErrMsg::LoginOrPasswordNotCorrect => String::from_str("логин или пароль не верные"),
            ErrMsg::NeedAcceptAgreement => String::from_str("необходимо принять условия оферты"),
            ErrMsg::NeedAcceptPrivacyPolicy => String::from_str(
                "необходимо принять политику конфиденциальности",
            ),
            ErrMsg::NoAccessTeamMemberOnly => String::from_str(
                "у вас нет доступа к данному действию, только для участника команды",
            ),
            ErrMsg::NoRules => String::from_str("у вас нет прав на данное действие"),
            ErrMsg::NotCorrectMultipartForm => String::from_str("ошибка в обработки формы"),
            ErrMsg::NotCorrectVerifyEmailCode => String::from_str(
                "проверочный код е-мэйла не верный",
            ),
            ErrMsg::NotFoundItem => String::from_str("запись не найдена"),
            ErrMsg::NotFoundUser => String::from_str("пользователь не найден"),
            ErrMsg::PasswordIsShort => {
                let mut s = String::from_str("пароль слишком короткий, нужно более или равно ");
                append_u64(&mut s, consts::MIN_PASSWORD_LEN as u64);
                s
            },
            ErrMsg::PasswordsNotEquals => String::from_str("пароли не равны"),
            ErrMsg::TokenExpired => String::from_str("токен просрочен"),
            ErrMsg::TokenIsNotRefresh => String::from_str("токен не является токеном обновления"),
            ErrMsg::TokenNotValid => String::from_str("токен не действителен"),
            ErrMsg::UndefinedTypeImage => String::from_str("не известный тип изображения"),
            ErrMsg::VerifyCodeNotBeEmpty => String::from_str(
                "проверочный код для е-мэйла отсутствует",
            ),
            ErrMsg::VerifyYourEmail => String::from_str("е-мэйл необходимо верифицировать"),
        }
    }
}

} // verus!
