use vstd::prelude::*;

use crate::cloning::clone_vec_exact;

verus! {

/// One icon slot of the landing page.
pub struct Icon {
    pub icon: Option<String>,
    pub title: Option<String>,
    pub modal_image: Option<String>,
    pub href: Option<String>,
    pub modal: bool,
}

impl Clone for Icon {
    fn clone(&self) -> (r: Self)
        ensures
            r == *self,
    {
        Icon {
            icon: clone_opt_string(&self.icon),
            title: clone_opt_string(&self.title),
            modal_image: clone_opt_string(&self.modal_image),
            href: clone_opt_string(&self.href),
            modal: self.modal,
        }
    }
}

fn clone_opt_string(v: &Option<String>) -> (r: Option<String>)
    ensures
        r == *v,
{
    match v {
        Some(s) => Some(s.clone()),
        None => None,
    }
}

/// The site-wide configuration blob served to the front end.
pub struct BlogConfigInfo {
    pub name: Option<String>,
    pub avatar: Option<String>,
    pub icon: Vec<Icon>,
    pub music_id: Option<String>,
    pub descriptions: Option<Vec<String>>,
    pub content: Option<String>,
}

/// Mathematical content of a [`BlogConfigInfo`]: vectors as sequences.
pub struct BlogConfigSnap {
    pub name: Option<String>,
    pub avatar: Option<String>,
    pub icon: Seq<Icon>,
    pub music_id: Option<String>,
    pub descriptions: Option<Seq<String>>,
    pub content: Option<String>,
}

impl View for BlogConfigInfo {
    type V = BlogConfigSnap;

    open spec fn view(&self) -> BlogConfigSnap {
        BlogConfigSnap {
            name: self.name,
            avatar: self.avatar,
            icon: self.icon@,
            music_id: self.music_id,
            descriptions: match self.descriptions {
                Some(d) => Some(d@),
                None => None,
            },
            content: self.content,
        }
    }
}

impl Clone for BlogConfigInfo {
    fn clone(&self) -> (r: Self)
        ensures
            r@ == self@,
    {
        proof {
            assert forall|x: Icon, y: Icon| call_ensures(Icon::clone, (&x,), y) implies y == x by {}
            assert forall|x: String, y: String| call_ensures(String::clone, (&x,), y) implies y
                == x by {}
        }
        let descriptions = match &self.descriptions {
            Some(d) => Some(clone_vec_exact(d)),
            None => None,
        };
        BlogConfigInfo {
            name: clone_opt_string(&self.name),
            avatar: clone_opt_string(&self.avatar),
            icon: clone_vec_exact(&self.icon),
            music_id: clone_opt_string(&self.music_id),
            descriptions,
            content: clone_opt_string(&self.content),
        }
    }
}

/// The configuration served when none has been stored yet.
pub fn get_default_blog_config_info() -> (r: BlogConfigInfo)
    ensures
        r.name is Some,
        r.avatar is Some,
        r@.icon.len() == 4,
        r.music_id is Some,
        r.descriptions is Some,
        r.content is Some,
{
    let mut icon: Vec<Icon> = Vec::new();
    icon.push(
        Icon {
            icon: Some("".to_owned()),
            title: Some("点击显示我的二维码".to_owned()),
            modal_image: Some("".to_owned()),
            href: Some("".to_owned()),
            modal: false,
        },
    );
    icon.push(
        Icon {
            icon: Some("".to_owned()),
            title: Some("".to_owned()),
            modal_image: Some("".to_owned()),
            href: Some("".to_owned()),
            modal: false,
        },
    );
    icon.push(
        Icon {
            icon: Some("".to_owned()),
            title: Some("我的Github地址".to_owned()),
            modal_image: Some("".to_owned()),
            href: Some("".to_owned()),
            modal: false,
        },
    );
    icon.push(
        Icon {
            icon: Some("".to_owned()),
            title: Some("".to_owned()),
            modal_image: Some("".to_owned()),
            href: Some("".to_owned()),
            modal: false,
        },
    );
    let mut descriptions: Vec<String> = Vec::new();
    descriptions.push("后端程序员一枚".to_owned());
    descriptions.push("有好的需求可以联系作者".to_owned());
    BlogConfigInfo {
        name: Some("".to_owned()),
        avatar: Some("".to_owned()),
        icon,
        music_id: Some("".to_owned()),
        descriptions: Some(descriptions),
        content: Some("".to_owned()),
    }
}

} // verus!
