//! Discord webhook messages and rich embeds.
use vstd::prelude::*;

verus! {

/// The view of an optional string.
pub open spec fn opt_view(o: Option<String>) -> Option<Seq<char>> {
    match o {
        Some(s) => Some(s@),
        None => None,
    }
}

/// Discord webhook message.
#[derive(Clone, Debug)]
pub struct DiscordWebhook {
    pub username: Option<String>,
    pub avatar_url: Option<String>,
    pub content: Option<String>,
    pub embeds: Vec<DiscordEmbed>,
}

/// Discord rich embed.
#[derive(Clone, Debug)]
pub struct DiscordEmbed {
    pub title: Option<String>,
    pub description: Option<String>,
    pub color: Option<u32>,
    pub fields: Vec<DiscordField>,
    pub author: Option<DiscordAuthor>,
    pub footer: Option<DiscordFooter>,
    pub timestamp: Option<String>,
}

/// Discord embed field.
#[derive(Clone, Debug)]
pub struct DiscordField {
    pub name: String,
    pub value: String,
    pub inline: bool,
}

/// Discord embed author.
#[derive(Clone, Debug)]
pub struct DiscordAuthor {
    pub name: String,
    pub icon_url: Option<String>,
}

/// Discord embed footer.
#[derive(Clone, Debug)]
pub struct DiscordFooter {
    pub text: String,
    pub icon_url: Option<String>,
}

/// The text of an embed field.
pub struct FieldView {
    pub name: Seq<char>,
    pub value: Seq<char>,
    pub inline: bool,
}

/// The text of an embed author or footer line, with its optional icon.
pub struct LineView {
    pub text: Seq<char>,
    pub icon_url: Option<Seq<char>>,
}

/// The text of an embed.
pub struct EmbedView {
    pub title: Option<Seq<char>>,
    pub description: Option<Seq<char>>,
    pub color: Option<u32>,
    pub fields: Seq<FieldView>,
    pub author: Option<LineView>,
    pub footer: Option<LineView>,
    pub timestamp: Option<Seq<char>>,
}

/// The text of a webhook message.
pub struct WebhookView {
    pub username: Option<Seq<char>>,
    pub avatar_url: Option<Seq<char>>,
    pub content: Option<Seq<char>>,
    pub embeds: Seq<EmbedView>,
}

impl View for DiscordField {
    type V = FieldView;

    open spec fn view(&self) -> FieldView {
        FieldView { name: self.name@, value: self.value@, inline: self.inline }
    }
}

impl View for DiscordAuthor {
    type V = LineView;

    open spec fn view(&self) -> LineView {
        LineView { text: self.name@, icon_url: opt_view(self.icon_url) }
    }
}

impl View for DiscordFooter {
    type V = LineView;

    open spec fn view(&self) -> LineView {
        LineView { text: self.text@, icon_url: opt_view(self.icon_url) }
    }
}

impl View for DiscordEmbed {
    type V = EmbedView;

    open spec fn view(&self) -> EmbedView {
        EmbedView {
            title: opt_view(self.title),
            description: opt_view(self.description),
            color: self.color,
            fields: self.fields@.map_values(|f: DiscordField| f@),
            author: match self.author {
                Some(a) => Some(a@),
                None => None,
            },
            footer: match self.footer {
                Some(f) => Some(f@),
                None => None,
            },
            timestamp: opt_view(self.timestamp),
        }
    }
}

impl View for DiscordWebhook {
    type V = WebhookView;

    open spec fn view(&self) -> WebhookView {
        WebhookView {
            username: opt_view(self.username),
            avatar_url: opt_view(self.avatar_url),
            content: opt_view(self.content),
            embeds: self.embeds@.map_values(|e: DiscordEmbed| e@),
        }
    }
}

impl Default for DiscordEmbed {
    fn default() -> (r: Self)
        ensures
            r.title is None,
            r.description is None,
            r.color is None,
            r.fields@.len() == 0,
            r.author is None,
            r.footer is None,
            r.timestamp is None,
    {
        DiscordEmbed {
            title: None,
            description: None,
            color: None,
            fields: Vec::new(),
            author: None,
            footer: None,
            timestamp: None,
        }
    }
}

} // verus!
