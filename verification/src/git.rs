//! O Git oculto: o que o núcleo lê da saída do git e decide a partir dela.
//!
//! Rodar o git é da borda. Daqui saem a identidade dos commits que o app faz
//! sozinho, a leitura do `diff --name-status`, dos conflitos que o
//! `merge-tree` nomeia e dos arquivos pendentes de um merge, e o plano de
//! resolver os conflitos com as escolhas de quem publica: um conflito sem
//! escolha derruba a publicação inteira.

use crate::erro::{invalido_de, Erro};
use crate::texto::{
    anexar, anexar_chars, aparado, aparar, aparar_chars, chars_de, em_branco, linhas,
    partir_linhas, string_de, Corte,
};
use vstd::prelude::*;

verus! {

broadcast use vstd::string::group_string_axioms;

/// A linha do ramo principal do repositório oculto.
pub const RAMO_PRINCIPAL: &'static str = "principal";

/// Identidade dos commits que o app faz sozinho, e a assinatura desligada:
/// estes commits não são do usuário, e a assinatura dele pediria senha no
/// meio de um "publicar".
pub const AUTOR: [&'static str; 6] = [
    "-c",
    "user.name=Mutirão",
    "-c",
    "user.email=mutirao@localhost",
    "-c",
    "commit.gpgsign=false",
];

/// O que muda ao publicar, sem tocar em nada.
#[derive(Debug, Clone, PartialEq)]
pub struct Previa {
    /// Arquivos que mudam, com a letra de estado do git (`A`, `M`, `D`, `R`).
    pub alterados: Vec<(String, String)>,
    /// Arquivos que os dois lados mexeram de formas que não se juntam.
    pub conflitos: Vec<String>,
}

/// De qual lado ficar quando os dois mexeram no mesmo arquivo.
#[derive(Debug, Clone, Copy, PartialEq, Eq, Structural)]
pub enum Lado {
    /// O que já estava na pasta.
    Original,
    /// O que o rascunho fez.
    Rascunho,
}

/// `--ours` é o lado da pasta, `--theirs` o do rascunho: durante um merge,
/// "nosso" é para onde se está mesclando.
pub fn opcao_do_lado(lado: Lado) -> (r: &'static str)
    ensures
        lado == Lado::Original ==> r@ == "--ours"@,
        lado == Lado::Rascunho ==> r@ == "--theirs"@,
{
    match lado {
        Lado::Original => "--ours",
        Lado::Rascunho => "--theirs",
    }
}

/// A falha de um git, com o subcomando e o stderr aparado.
pub fn falha_do_git(subcomando: &str, stderr: &str) -> (r: Erro)
    ensures
        r matches Erro::Invalido(m) && m@ == "git "@ + subcomando@ + " falhou: "@ + aparado(stderr@),
{
    let mut v: Vec<char> = Vec::new();
    anexar(&mut v, "git ");
    anexar(&mut v, subcomando);
    anexar(&mut v, " falhou: ");
    let e = aparar(stderr);
    anexar(&mut v, e.as_str());
    invalido_de(&v)
}

// --------------------------------------------------------------- leitura

/// Onde está o primeiro `c`, ou o tamanho quando não há nenhum.
pub open spec fn primeiro(s: Seq<char>, c: char) -> int
    decreases s.len(),
{
    if s.len() == 0 {
        0
    } else if s[0] == c {
        0
    } else {
        1 + primeiro(s.drop_first(), c)
    }
}

proof fn lema_primeiro(s: Seq<char>, c: char, k: int)
    requires
        0 <= k <= s.len(),
        forall|q: int| 0 <= q < k ==> #[trigger] s[q] != c,
        k == s.len() || s[k] == c,
    ensures
        primeiro(s, c) == k,
    decreases k,
{
    if k > 0 {
        let r = s.drop_first();
        assert forall|q: int| 0 <= q < k - 1 implies #[trigger] r[q] != c by {
            assert(r[q] == s[q + 1]);
        }
        if k - 1 < r.len() {
            assert(r[k - 1] == s[k]);
        }
        lema_primeiro(r, c, k - 1);
    }
}

fn achar(s: &Vec<char>, de: usize, c: char) -> (r: usize)
    requires
        de <= s@.len(),
    ensures
        de <= r <= s@.len(),
        r - de == primeiro(s@.subrange(de as int, s@.len() as int), c),
{
    let mut k: usize = de;
    while k < s.len() && s[k] != c
        invariant
            de <= k <= s@.len(),
            forall|q: int| de <= q < k ==> s@[q] != c,
        decreases s@.len() - k,
    {
        k = k + 1;
    }
    proof {
        let t = s@.subrange(de as int, s@.len() as int);
        assert forall|q: int| 0 <= q < k - de implies #[trigger] t[q] != c by {
            assert(t[q] == s@[q + de]);
        }
        if k < s@.len() {
            assert(t[k - de] == s@[k as int]);
        }
        lema_primeiro(t, c, k - de);
    }
    k
}

/// Uma linha do `diff --name-status`: a letra e o caminho, separados por
/// tabulação e aparados. Linha sem tabulação não conta.
pub open spec fn entrada_name_status(l: Seq<char>) -> Option<(Seq<char>, Seq<char>)> {
    let k = primeiro(l, '\t');
    if k >= l.len() {
        None
    } else {
        let resto = l.subrange(k + 1, l.len() as int);
        Some((aparado(l.take(k)), aparado(resto.take(primeiro(resto, '\t')))))
    }
}

/// As entradas das linhas, na ordem.
pub open spec fn name_status_spec(ls: Seq<Seq<char>>) -> Seq<(Seq<char>, Seq<char>)>
    decreases ls.len(),
{
    if ls.len() == 0 {
        Seq::empty()
    } else {
        let resto = name_status_spec(ls.drop_last());
        match entrada_name_status(ls.last()) {
            Some(e) => resto.push(e),
            None => resto,
        }
    }
}

fn trecho(s: &Vec<char>, de: usize, ate: usize) -> (r: Vec<char>)
    requires
        de <= ate <= s@.len(),
    ensures
        r@ == s@.subrange(de as int, ate as int),
{
    let mut r: Vec<char> = Vec::new();
    let mut k: usize = de;
    while k < ate
        invariant
            de <= k <= ate <= s@.len(),
            r@ == s@.subrange(de as int, k as int),
        decreases ate - k,
    {
        r.push(s[k]);
        proof {
            assert(s@.subrange(de as int, k + 1) == s@.subrange(de as int, k as int).push(s@[k as int]));
        }
        k = k + 1;
    }
    r
}

/// Lê o `git diff --name-status`: `(letra, caminho)` de cada linha.
pub fn ler_name_status(bruto: &str) -> (r: Vec<(String, String)>)
    ensures
        r@.map_values(|p: (String, String)| (p.0@, p.1@)) == name_status_spec(linhas(bruto@)),
{
    let ls = partir_linhas(&chars_de(bruto));
    let ghost lv = linhas(bruto@);
    let mut r: Vec<(String, String)> = Vec::new();
    let mut i: usize = 0;
    while i < ls.len()
        invariant
            i <= ls@.len(),
            ls@.len() == lv.len(),
            lv == linhas(bruto@),
            forall|j: int| 0 <= j < ls@.len() ==> (#[trigger] ls@[j])@ == lv[j],
            r@.map_values(|p: (String, String)| (p.0@, p.1@)) == name_status_spec(lv.take(i as int)),
        decreases ls@.len() - i,
    {
        proof {
            assert(lv.take(i + 1).drop_last() =~= lv.take(i as int));
            assert(lv.take(i + 1).last() == ls@[i as int]@);
        }
        let l = &ls[i];
        let k = achar(l, 0, '\t');
        proof {
            assert(l@.subrange(0, l@.len() as int) =~= l@);
        }
        if k < l.len() {
            let k2 = achar(l, k + 1, '\t');
            let estado = aparar_chars(&trecho(l, 0, k), Corte::Espaco);
            let caminho = aparar_chars(&trecho(l, k + 1, k2), Corte::Espaco);
            let ghost antes = r@;
            r.push((string_de(&estado), string_de(&caminho)));
            proof {
                let resto = l@.subrange(k + 1, l@.len() as int);
                assert(l@.take(k as int) =~= l@.subrange(0, k as int));
                assert(resto.take(k2 - (k + 1)) =~= l@.subrange(k + 1, k2 as int));
                assert(r@.map_values(|p: (String, String)| (p.0@, p.1@)) =~= antes.map_values(
                    |p: (String, String)| (p.0@, p.1@),
                ).push((estado@, caminho@)));
            }
        }
        i = i + 1;
    }
    proof {
        assert(lv.take(lv.len() as int) =~= lv);
    }
    r
}

/// As linhas até a primeira em branco, aparadas.
pub open spec fn ate_em_branco(ls: Seq<Seq<char>>) -> Seq<Seq<char>>
    decreases ls.len(),
{
    if ls.len() == 0 || aparado(ls[0]).len() == 0 {
        Seq::empty()
    } else {
        Seq::empty().push(aparado(ls[0])) + ate_em_branco(ls.drop_first())
    }
}

/// Os arquivos em conflito que o `merge-tree --write-tree --name-only` nomeia:
/// a primeira linha é o oid da árvore; depois, um por linha, os caminhos em
/// conflito; depois uma linha em branco e a explicação. Sucesso quer dizer
/// que nada conflita.
pub fn ler_conflitos(saida: &str, sucesso: bool) -> (r: Vec<String>)
    ensures
        sucesso ==> r@.len() == 0,
        !sucesso ==> r@.map_values(|s: String| s@) == ate_em_branco(linhas(saida@).drop_first())
            || (linhas(saida@).len() == 0 && r@.len() == 0),
{
    let mut r: Vec<String> = Vec::new();
    if sucesso {
        return r;
    }
    let ls = partir_linhas(&chars_de(saida));
    if ls.len() == 0 {
        return r;
    }
    let ghost lv = linhas(saida@).drop_first();
    let mut i: usize = 1;
    proof {
        assert(lv.skip(0) =~= lv);
        assert(r@.map_values(|s: String| s@) =~= Seq::<Seq<char>>::empty());
    }
    while i < ls.len()
        invariant
            1 <= i <= ls@.len(),
            !sucesso,
            ls@.len() == linhas(saida@).len(),
            lv == linhas(saida@).drop_first(),
            forall|j: int| 0 <= j < ls@.len() ==> (#[trigger] ls@[j])@ == linhas(saida@)[j],
            r@.map_values(|s: String| s@) + ate_em_branco(lv.skip(i - 1)) == ate_em_branco(lv),
        decreases ls@.len() - i,
    {
        let l = aparar_chars(&ls[i], Corte::Espaco);
        proof {
            assert(lv.skip(i - 1)[0] == ls@[i as int]@);
            assert(lv.skip(i - 1).drop_first() =~= lv.skip(i as int));
        }
        if l.len() == 0 {
            proof {
                assert(r@.map_values(|s: String| s@) + Seq::<Seq<char>>::empty() =~= r@.map_values(
                    |s: String| s@,
                ));
            }
            return r;
        }
        let ghost antes = r@.map_values(|s: String| s@);
        r.push(string_de(&l));
        proof {
            assert(r@.map_values(|s: String| s@) =~= antes.push(l@));
            assert(antes + ate_em_branco(lv.skip(i - 1)) =~= antes.push(l@) + ate_em_branco(
                lv.skip(i as int),
            ));
        }
        i = i + 1;
    }
    proof {
        assert(lv.skip(i - 1) =~= Seq::<Seq<char>>::empty());
        assert(r@.map_values(|s: String| s@) + Seq::<Seq<char>>::empty() =~= r@.map_values(
            |s: String| s@,
        ));
    }
    r
}

/// As linhas não vazias, aparadas: os arquivos pendentes de um merge.
pub open spec fn pendentes_spec(ls: Seq<Seq<char>>) -> Seq<Seq<char>>
    decreases ls.len(),
{
    if ls.len() == 0 {
        Seq::empty()
    } else {
        let resto = pendentes_spec(ls.drop_last());
        if aparado(ls.last()).len() == 0 {
            resto
        } else {
            resto.push(aparado(ls.last()))
        }
    }
}

/// Os arquivos pendentes de um merge (`diff --name-only --diff-filter=U`).
pub fn ler_pendentes(bruto: &str) -> (r: Vec<String>)
    ensures
        r@.map_values(|s: String| s@) == pendentes_spec(linhas(bruto@)),
{
    let ls = partir_linhas(&chars_de(bruto));
    let ghost lv = linhas(bruto@);
    let mut r: Vec<String> = Vec::new();
    let mut i: usize = 0;
    while i < ls.len()
        invariant
            i <= ls@.len(),
            ls@.len() == lv.len(),
            lv == linhas(bruto@),
            forall|j: int| 0 <= j < ls@.len() ==> (#[trigger] ls@[j])@ == lv[j],
            r@.map_values(|s: String| s@) == pendentes_spec(lv.take(i as int)),
        decreases ls@.len() - i,
    {
        proof {
            assert(lv.take(i + 1).drop_last() =~= lv.take(i as int));
            assert(lv.take(i + 1).last() == ls@[i as int]@);
        }
        let l = aparar_chars(&ls[i], Corte::Espaco);
        if l.len() > 0 {
            let ghost antes = r@.map_values(|s: String| s@);
            r.push(string_de(&l));
            proof {
                assert(r@.map_values(|s: String| s@) =~= antes.push(l@));
            }
        }
        i = i + 1;
    }
    proof {
        assert(lv.take(lv.len() as int) =~= lv);
    }
    r
}

// ---------------------------------------------------------------- escolhas

/// A escolha de um arquivo: a primeira que o nomeia.
pub open spec fn escolha_spec(escolhas: Seq<(Seq<char>, Lado)>, arquivo: Seq<char>, i: int) -> Option<Lado>
    decreases escolhas.len() - i,
{
    if i < 0 || i >= escolhas.len() {
        None
    } else if escolhas[i].0 == arquivo {
        Some(escolhas[i].1)
    } else {
        escolha_spec(escolhas, arquivo, i + 1)
    }
}

fn escolha_de(escolhas: &Vec<(String, Lado)>, arquivo: &str) -> (r: Option<Lado>)
    ensures
        r == escolha_spec(escolhas@.map_values(|e: (String, Lado)| (e.0@, e.1)), arquivo@, 0),
{
    let ghost ev = escolhas@.map_values(|e: (String, Lado)| (e.0@, e.1));
    let mut i: usize = 0;
    while i < escolhas.len()
        invariant
            i <= escolhas@.len(),
            ev == escolhas@.map_values(|e: (String, Lado)| (e.0@, e.1)),
            escolha_spec(ev, arquivo@, 0) == escolha_spec(ev, arquivo@, i as int),
        decreases escolhas@.len() - i,
    {
        if crate::texto::iguais(escolhas[i].0.as_str(), arquivo) {
            return Some(escolhas[i].1);
        }
        i = i + 1;
    }
    None
}

/// A frase de um conflito sem escolha.
pub open spec fn frase_sem_escolha(arquivo: Seq<char>) -> Seq<char> {
    "\""@ + arquivo + "\" mudou dos dois lados e ninguém escolheu qual fica. Nada foi publicado."@
}

/// O primeiro pendente sem escolha, a partir de `i`.
pub open spec fn sem_escolha(pendentes: Seq<Seq<char>>, escolhas: Seq<(Seq<char>, Lado)>, i: int) -> Option<Seq<char>>
    decreases pendentes.len() - i,
{
    if i < 0 || i >= pendentes.len() {
        None
    } else if escolha_spec(escolhas, pendentes[i], 0) is None {
        Some(pendentes[i])
    } else {
        sem_escolha(pendentes, escolhas, i + 1)
    }
}

/// O plano de resolver os conflitos: o lado de cada pendente, na ordem. Um
/// pendente sem escolha derruba o plano inteiro — publicar pela metade é pior
/// que não publicar.
pub fn plano_de_resolucao(pendentes: &Vec<String>, escolhas: &Vec<(String, Lado)>) -> (r: Result<
    Vec<(String, Lado)>,
    Erro,
>)
    ensures
        ({
            let ps = pendentes@.map_values(|s: String| s@);
            let ev = escolhas@.map_values(|e: (String, Lado)| (e.0@, e.1));
            match sem_escolha(ps, ev, 0) {
                Some(a) => r matches Err(Erro::Invalido(m)) && m@ == frase_sem_escolha(a),
                None => r matches Ok(plano) && plano@.len() == ps.len() && forall|k: int|
                    0 <= k < ps.len() ==> (#[trigger] plano@[k]).0@ == ps[k] && escolha_spec(
                        ev,
                        ps[k],
                        0,
                    ) == Some(plano@[k].1),
            }
        }),
{
    let ghost ps = pendentes@.map_values(|s: String| s@);
    let ghost ev = escolhas@.map_values(|e: (String, Lado)| (e.0@, e.1));
    let mut plano: Vec<(String, Lado)> = Vec::new();
    let mut i: usize = 0;
    while i < pendentes.len()
        invariant
            i <= pendentes@.len(),
            ps == pendentes@.map_values(|s: String| s@),
            ev == escolhas@.map_values(|e: (String, Lado)| (e.0@, e.1)),
            sem_escolha(ps, ev, 0) == sem_escolha(ps, ev, i as int),
            plano@.len() == i,
            forall|k: int|
                0 <= k < i ==> (#[trigger] plano@[k]).0@ == ps[k] && escolha_spec(ev, ps[k], 0) == Some(
                    plano@[k].1,
                ),
        decreases pendentes@.len() - i,
    {
        match escolha_de(escolhas, pendentes[i].as_str()) {
            Some(lado) => {
                plano.push((pendentes[i].clone(), lado));
            },
            None => {
                let mut v: Vec<char> = Vec::new();
                anexar(&mut v, "\"");
                anexar(&mut v, pendentes[i].as_str());
                anexar(&mut v, "\" mudou dos dois lados e ninguém escolheu qual fica. Nada foi publicado.");
                return Err(invalido_de(&v));
            },
        }
        i = i + 1;
    }
    Ok(plano)
}

} // verus!
