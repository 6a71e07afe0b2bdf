//! Shapes of the sign-up and sign-in endpoints, and the wording of their errors.

use vstd::prelude::*;
use vstd::string::*;
use crate::text::{chars_of, contains_text, has_substring, lowercase, to_lowercase};

verus! {

/// The credentials of a new account.
#[derive(Debug)]
pub struct SignUpRequest {
    pub email: String,
    pub password: String,
}

/// The credentials of a sign-in.
#[derive(Debug)]
pub struct SignInRequest {
    pub email: String,
    pub password: String,
}

/// The tokens handed out on sign-in, and whose they are.
#[derive(Debug)]
pub struct AuthResponse {
    pub access_token: String,
    pub refresh_token: String,
    pub token_type: String,
    pub expires_in: i64,
    pub user: UserInfo,
}

/// The account that a sign-in belongs to.
#[derive(Debug)]
pub struct UserInfo {
    pub id: String,
    pub email: String,
}

/// A refresh token to be exchanged.
#[derive(Debug)]
pub struct RefreshTokenRequest {
    pub refresh_token: String,
}

/// The address that a password reset is asked for.
#[derive(Debug)]
pub struct ResetPasswordRequest {
    pub email: String,
}

/// A plain confirmation.
#[derive(Debug)]
pub struct MessageResponse {
    pub message: String,
}


/// The message shown for an error text of the identity provider: the first
/// of nine rules on the words of its lower-case form that applies, and a
/// general message where none does.
pub open spec fn auth_error_message(error: Seq<char>) -> Seq<char> {
    let e = lowercase(error);
    if has_substring(e, "password"@) && has_substring(e, "6"@) {
        "パスワードは6文字以上で入力してください"@
    } else if has_substring(e, "password"@) && (has_substring(e, "weak"@) || has_substring(e, "short"@) || has_substring(e, "length"@)) {
        "パスワードが短すぎます。8文字以上で入力してください"@
    } else if has_substring(e, "email"@) && (has_substring(e, "invalid"@) || has_substring(e, "format"@)) {
        "有効なメールアドレスを入力してください"@
    } else if has_substring(e, "already registered"@) || has_substring(e, "already exists"@) {
        "このメールアドレスは既に登録されています"@
    } else if has_substring(e, "invalid login"@) || has_substring(e, "invalid credentials"@) {
        "メールアドレスまたはパスワードが正しくありません"@
    } else if has_substring(e, "email not confirmed"@) {
        "メールアドレスの確認が完了していません。メールをご確認ください"@
    } else if has_substring(e, "rate limit"@) || has_substring(e, "too many"@) {
        "リクエストが多すぎます。しばらく待ってから再試行してください"@
    } else if has_substring(e, "user not found"@) {
        "ユーザーが見つかりません"@
    } else if has_substring(e, "token"@) && has_substring(e, "expired"@) {
        "セッションの有効期限が切れました。再度ログインしてください"@
    } else {
        "認証エラーが発生しました。入力内容をご確認ください"@
    }
}

/// Turns an error text of the identity provider into the message shown to
/// the user.
pub fn translate_auth_error(error: &str) -> (message: String)
    ensures
        message@ == auth_error_message(error@),
{
    let lower = to_lowercase(error);
    let e = chars_of(lower.as_str());
    let text: &'static str = if contains_text(&e, "password") && contains_text(&e, "6") {
            "パスワードは6文字以上で入力してください"
        } else if contains_text(&e, "password") && (contains_text(&e, "weak") || contains_text(&e, "short") || contains_text(&e, "length")) {
            "パスワードが短すぎます。8文字以上で入力してください"
        } else if contains_text(&e, "email") && (contains_text(&e, "invalid") || contains_text(&e, "format")) {
            "有効なメールアドレスを入力してください"
        } else if contains_text(&e, "already registered") || contains_text(&e, "already exists") {
            "このメールアドレスは既に登録されています"
        } else if contains_text(&e, "invalid login") || contains_text(&e, "invalid credentials") {
            "メールアドレスまたはパスワードが正しくありません"
        } else if contains_text(&e, "email not confirmed") {
            "メールアドレスの確認が完了していません。メールをご確認ください"
        } else if contains_text(&e, "rate limit") || contains_text(&e, "too many") {
            "リクエストが多すぎます。しばらく待ってから再試行してください"
        } else if contains_text(&e, "user not found") {
            "ユーザーが見つかりません"
        } else if contains_text(&e, "token") && contains_text(&e, "expired") {
            "セッションの有効期限が切れました。再度ログインしてください"
        } else {
            "認証エラーが発生しました。入力内容をご確認ください"
        };
    text.to_owned()
}

} // verus!
