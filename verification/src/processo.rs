//! Como o núcleo acha um programa: a ordem em que o console procura.
//!
//! No Windows a CLI instalada pelo npm é um `agente.cmd`, e abrir `agente`
//! direto não o acha. A busca aqui é a do console: pasta por pasta do PATH e,
//! dentro de cada uma, todas as extensões do `PATHEXT`, nessa ordem, com o
//! nome pelado por último. Conferir se cada candidato existe e roda é da
//! borda.

use crate::texto::{anexar, aparado, aparado_por, aparar_chars, chars_de, string_de, Corte};
use vstd::prelude::*;

verus! {

broadcast use vstd::string::group_string_axioms;

/// O `PATHEXT` quando a variável não existe.
pub const PATHEXT_PADRAO: &'static str = ".COM;.EXE;.BAT;.CMD";

/// Os pedaços de um texto separados por `;`.
pub open spec fn pedacos(s: Seq<char>) -> Seq<Seq<char>>
    decreases s.len(),
{
    if s.len() == 0 {
        Seq::empty().push(Seq::empty())
    } else {
        let resto = pedacos(s.drop_last());
        if s.last() == ';' {
            resto.push(Seq::empty())
        } else {
            resto.update(resto.len() - 1, resto.last().push(s.last()))
        }
    }
}

proof fn lema_pedacos_nao_vazio(s: Seq<char>)
    ensures
        pedacos(s).len() >= 1,
    decreases s.len(),
{
    if s.len() > 0 {
        lema_pedacos_nao_vazio(s.drop_last());
    }
}

/// Uma extensão como o console a usa: com o ponto na frente.
pub open spec fn com_ponto(e: Seq<char>) -> Seq<char> {
    if e.len() > 0 && e[0] == '.' {
        e
    } else {
        "."@ + e
    }
}

/// As extensões de um `PATHEXT`: cada pedaço aparado, os vazios fora, com
/// ponto.
pub open spec fn extensoes_spec(ps: Seq<Seq<char>>) -> Seq<Seq<char>>
    decreases ps.len(),
{
    if ps.len() == 0 {
        Seq::empty()
    } else {
        let resto = extensoes_spec(ps.drop_last());
        if aparado(ps.last()).len() == 0 {
            resto
        } else {
            resto.push(com_ponto(aparado(ps.last())))
        }
    }
}

/// As extensões que contam como executável. Fora do Windows, nenhuma: o bit
/// de execução decide. No Windows, as do `PATHEXT`, ou as do sistema quando a
/// variável não existe.
pub fn extensoes(pathext: Option<String>, windows: bool) -> (r: Vec<String>)
    ensures
        !windows ==> r@.len() == 0,
        windows ==> r@.map_values(|s: String| s@) == extensoes_spec(
            pedacos(
                match pathext {
                    Some(p) => p@,
                    None => PATHEXT_PADRAO@,
                },
            ),
        ),
{
    let mut r: Vec<String> = Vec::new();
    if !windows {
        return r;
    }
    let bruto = match pathext {
        Some(p) => chars_de(p.as_str()),
        None => chars_de(PATHEXT_PADRAO),
    };
    // Os pedaços, um a um.
    let mut pedaco: Vec<char> = Vec::new();
    let mut i: usize = 0;
    proof {
        assert(r@.map_values(|s: String| s@) =~= Seq::<Seq<char>>::empty());
        assert(bruto@.take(0) =~= Seq::<char>::empty());
    }
    while i < bruto.len()
        invariant
            i <= bruto@.len(),
            pedacos(bruto@.take(i as int)) == pedacos(bruto@.take(i as int)).drop_last().push(
                pedaco@,
            ),
            r@.map_values(|s: String| s@) == extensoes_spec(pedacos(bruto@.take(i as int)).drop_last()),
        decreases bruto@.len() - i,
    {
        let ghost antes = pedacos(bruto@.take(i as int));
        proof {
            lema_pedacos_nao_vazio(bruto@.take(i as int));
            assert(bruto@.take(i + 1).drop_last() =~= bruto@.take(i as int));
            assert(bruto@.take(i + 1).last() == bruto@[i as int]);
        }
        if bruto[i] == ';' {
            let e = aparar_chars(&pedaco, Corte::Espaco);
            if e.len() > 0 {
                let ghost r_antes = r@.map_values(|s: String| s@);
                let mut x: Vec<char> = Vec::new();
                if e[0] != '.' {
                    x.push('.');
                }
                let mut k: usize = 0;
                while k < e.len()
                    invariant
                        k <= e@.len(),
                        x@ == (if e@[0] == '.' { Seq::<char>::empty() } else { seq!['.'] }) + e@.take(k as int),
                    decreases e@.len() - k,
                {
                    x.push(e[k]);
                    proof {
                        assert(e@.take(k + 1) =~= e@.take(k as int).push(e@[k as int]));
                    }
                    k = k + 1;
                }
                proof {
                    reveal_strlit(".");
                    assert(e@.take(e@.len() as int) =~= e@);
                    assert(x@ == com_ponto(e@));
                }
                r.push(string_de(&x));
                proof {
                    assert(r@.map_values(|s: String| s@) =~= r_antes.push(x@));
                }
            }
            pedaco = Vec::new();
            proof {
                let novo = pedacos(bruto@.take(i + 1));
                assert(novo == antes.push(Seq::empty()));
                assert(novo.drop_last() =~= antes);
                assert(antes.drop_last().push(antes.last()) =~= antes);
                assert(novo =~= novo.drop_last().push(Seq::<char>::empty()));
            }
        } else {
            pedaco.push(bruto[i]);
            proof {
                let novo = pedacos(bruto@.take(i + 1));
                assert(novo == antes.update(antes.len() - 1, antes.last().push(bruto@[i as int])));
                assert(novo.drop_last() =~= antes.drop_last());
                assert(novo =~= novo.drop_last().push(pedaco@));
            }
        }
        i = i + 1;
    }
    proof {
        assert(bruto@.take(bruto@.len() as int) =~= bruto@);
    }
    let e = aparar_chars(&pedaco, Corte::Espaco);
    if e.len() > 0 {
        let ghost r_antes = r@.map_values(|s: String| s@);
        let mut x: Vec<char> = Vec::new();
        if e[0] != '.' {
            x.push('.');
        }
        let mut k: usize = 0;
        while k < e.len()
            invariant
                k <= e@.len(),
                x@ == (if e@[0] == '.' { Seq::<char>::empty() } else { seq!['.'] }) + e@.take(k as int),
            decreases e@.len() - k,
        {
            x.push(e[k]);
            proof {
                assert(e@.take(k + 1) =~= e@.take(k as int).push(e@[k as int]));
            }
            k = k + 1;
        }
        proof {
            reveal_strlit(".");
            assert(e@.take(e@.len() as int) =~= e@);
            assert(x@ == com_ponto(e@));
        }
        r.push(string_de(&x));
        proof {
            assert(r@.map_values(|s: String| s@) =~= r_antes.push(x@));
        }
    }
    proof {
        let ps = pedacos(bruto@);
        lema_pedacos_nao_vazio(bruto@);
        assert(ps.drop_last().push(ps.last()) =~= ps);
    }
    r
}

/// O nome traz uma barra: é caminho, não nome de programa, e o PATH não entra.
pub open spec fn e_caminho(nome: Seq<char>) -> bool {
    nome.contains('/') || nome.contains('\\')
}

pub fn tem_barra(nome: &str) -> (r: bool)
    ensures
        r == e_caminho(nome@),
{
    let s = chars_de(nome);
    let mut i: usize = 0;
    while i < s.len()
        invariant
            i <= s@.len(),
            s@ == nome@,
            forall|k: int| 0 <= k < i ==> s@[k] != '/' && s@[k] != '\\',
        decreases s@.len() - i,
    {
        if s[i] == '/' || s[i] == '\\' {
            return true;
        }
        i = i + 1;
    }
    false
}

/// Os nomes a tentar para um caminho-base: com cada extensão, na ordem, e o
/// pelado por último.
pub open spec fn candidatos_spec(base: Seq<char>, extensoes: Seq<Seq<char>>) -> Seq<Seq<char>> {
    extensoes.map_values(|e: Seq<char>| base + e).push(base)
}

/// Uma pasta do PATH com um nome dentro.
pub open spec fn juntar_caminho(pasta: Seq<char>, nome: Seq<char>) -> Seq<char> {
    if pasta.len() == 0 {
        nome
    } else if pasta.last() == '/' {
        pasta + nome
    } else {
        pasta + "/"@ + nome
    }
}

/// Todos os candidatos, na ordem do console: pasta por pasta, e em cada uma
/// todas as extensões. Um caminho inteiro só é conferido, sem PATH.
pub open spec fn ordem_de_busca_spec(nome: Seq<char>, pastas: Seq<Seq<char>>, extensoes: Seq<Seq<char>>) -> Seq<Seq<char>>
    decreases pastas.len(),
{
    if e_caminho(nome) {
        candidatos_spec(nome, extensoes)
    } else if pastas.len() == 0 {
        Seq::empty()
    } else {
        ordem_de_busca_spec(nome, pastas.drop_last(), extensoes) + candidatos_spec(
            juntar_caminho(pastas.last(), nome),
            extensoes,
        )
    }
}

fn candidatos(base: &str, extensoes: &Vec<String>, r: &mut Vec<String>)
    ensures
        final(r)@.map_values(|s: String| s@) == old(r)@.map_values(|s: String| s@) + candidatos_spec(
            base@,
            extensoes@.map_values(|s: String| s@),
        ),
{
    let ghost antes = r@.map_values(|s: String| s@);
    let ghost ev = extensoes@.map_values(|s: String| s@);
    let mut i: usize = 0;
    while i < extensoes.len()
        invariant
            i <= extensoes@.len(),
            ev == extensoes@.map_values(|s: String| s@),
            r@.map_values(|s: String| s@) == antes + ev.take(i as int).map_values(
                |e: Seq<char>| base@ + e,
            ),
        decreases extensoes@.len() - i,
    {
        let mut v = chars_de(base);
        anexar(&mut v, extensoes[i].as_str());
        let ghost r0 = r@.map_values(|s: String| s@);
        r.push(string_de(&v));
        proof {
            assert(r@.map_values(|s: String| s@) =~= r0.push(base@ + ev[i as int]));
            assert(ev.take(i + 1).map_values(|e: Seq<char>| base@ + e) =~= ev.take(i as int).map_values(
                |e: Seq<char>| base@ + e,
            ).push(base@ + ev[i as int]));
        }
        i = i + 1;
    }
    let ghost r0 = r@.map_values(|s: String| s@);
    r.push(base.to_string());
    proof {
        assert(ev.take(ev.len() as int) =~= ev);
        assert(r@.map_values(|s: String| s@) =~= r0.push(base@));
    }
}

/// Os caminhos a conferir para achar um programa, na ordem em que o console
/// os tentaria. O primeiro que existir e rodar é o programa.
pub fn ordem_de_busca(nome: &str, pastas: &Vec<String>, extensoes: &Vec<String>) -> (r: Vec<String>)
    ensures
        r@.map_values(|s: String| s@) == ordem_de_busca_spec(
            nome@,
            pastas@.map_values(|s: String| s@),
            extensoes@.map_values(|s: String| s@),
        ),
{
    let ghost pv = pastas@.map_values(|s: String| s@);
    let ghost ev = extensoes@.map_values(|s: String| s@);
    let mut r: Vec<String> = Vec::new();
    proof {
        assert(r@.map_values(|s: String| s@) =~= Seq::<Seq<char>>::empty());
    }
    if tem_barra(nome) {
        candidatos(nome, extensoes, &mut r);
        proof {
            assert(Seq::<Seq<char>>::empty() + candidatos_spec(nome@, ev) =~= candidatos_spec(nome@, ev));
        }
        return r;
    }
    let mut i: usize = 0;
    while i < pastas.len()
        invariant
            i <= pastas@.len(),
            !e_caminho(nome@),
            pv == pastas@.map_values(|s: String| s@),
            ev == extensoes@.map_values(|s: String| s@),
            r@.map_values(|s: String| s@) == ordem_de_busca_spec(nome@, pv.take(i as int), ev),
        decreases pastas@.len() - i,
    {
        proof {
            assert(pv.take(i + 1).drop_last() =~= pv.take(i as int));
            assert(pv.take(i + 1).last() == pastas@[i as int]@);
        }
        let p = chars_de(pastas[i].as_str());
        let mut base = p.clone();
        if p.len() == 0 {
            base = chars_de(nome);
        } else if p[p.len() - 1] == '/' {
            anexar(&mut base, nome);
        } else {
            anexar(&mut base, "/");
            anexar(&mut base, nome);
        }
        let b = string_de(&base);
        candidatos(b.as_str(), extensoes, &mut r);
        i = i + 1;
    }
    proof {
        assert(pv.take(pv.len() as int) =~= pv);
    }
    r
}

} // verus!
