//! Partituras: o time salvo para reabrir amanhã.
//!
//! Uma partitura guarda quem trabalha e como está ligado — nós, papéis,
//! cabos, posições — e não guarda conversa, sessão, custo nem arquivo.
//! Reabrir monta o mesmo time com nós novos; nada é sobrescrito.
//!
//! Aqui: os cabos viram pares de posição, a conta do teto de agentes e o nome
//! livre de quem chega. Ler e gravar no banco, e as posições no canvas, são
//! da borda.

use crate::erro::{invalido_de, Erro};
use crate::modelo::{novo_id, CaboSalvo, TipoCabo, TipoNo, MAX_AGENTES_POR_WORKSPACE};
use crate::papeis::lista_contem;
use crate::texto::{
    anexar, anexar_chars, aparado, aparar, chars_de, decimal, em_minusculas, escrever_decimal,
    minusculas, primeiros, string_de,
};
use vstd::prelude::*;

verus! {

broadcast use vstd::string::group_string_axioms;

// ------------------------------------------------------------------ cabos

/// A posição de um id entre os nós fotografados (a última, se ele se repete).
pub open spec fn posicao_spec(ids: Seq<Seq<char>>, id: Seq<char>) -> Option<int>
    decreases ids.len(),
{
    if ids.len() == 0 {
        None
    } else if ids.last() == id {
        Some(ids.len() - 1)
    } else {
        posicao_spec(ids.drop_last(), id)
    }
}

/// Os cabos da fotografia, pelas posições das pontas. Cabo com ponta fora da
/// fotografia não vai junto: gravar um índice inventado transformaria um
/// cabo perdido num nó errado.
pub open spec fn cabos_salvos_spec(ids: Seq<Seq<char>>, cabos: Seq<(Seq<char>, Seq<char>, TipoCabo)>) -> Seq<CaboSalvo>
    decreases cabos.len(),
{
    if cabos.len() == 0 {
        Seq::empty()
    } else {
        let resto = cabos_salvos_spec(ids, cabos.drop_last());
        let c = cabos.last();
        match (posicao_spec(ids, c.0), posicao_spec(ids, c.1)) {
            (Some(de), Some(para)) => resto.push(CaboSalvo { de: de as usize, para: para as usize, tipo: c.2 }),
            _ => resto,
        }
    }
}

proof fn lema_posicao(ids: Seq<Seq<char>>, id: Seq<char>)
    ensures
        posicao_spec(ids, id) matches Some(i) ==> 0 <= i < ids.len() && ids[i] == id,
        posicao_spec(ids, id) is None ==> !ids.contains(id),
    decreases ids.len(),
{
    if ids.len() > 0 {
        lema_posicao(ids.drop_last(), id);
        if posicao_spec(ids, id) is None {
            assert forall|k: int| 0 <= k < ids.len() implies ids[k] != id by {
                if k < ids.len() - 1 {
                    assert(ids.drop_last()[k] == ids[k]);
                }
            }
        }
    }
}

fn posicao(ids: &Vec<String>, id: &str) -> (r: Option<usize>)
    ensures
        match r {
            Some(i) => posicao_spec(ids@.map_values(|s: String| s@), id@) == Some(i as int),
            None => posicao_spec(ids@.map_values(|s: String| s@), id@) is None,
        },
{
    let ghost v = ids@.map_values(|s: String| s@);
    let mut j: usize = ids.len();
    assert(v.take(v.len() as int) =~= v);
    while j > 0
        invariant
            j <= ids@.len(),
            v == ids@.map_values(|s: String| s@),
            posicao_spec(v, id@) == posicao_spec(v.take(j as int), id@),
        decreases j,
    {
        proof {
            assert(v.take(j as int).drop_last() =~= v.take(j - 1));
            assert(v.take(j as int).last() == ids@[j - 1]@);
        }
        if crate::texto::iguais(ids[j - 1].as_str(), id) {
            return Some(j - 1);
        }
        j = j - 1;
    }
    None
}

/// Os cabos de uma fotografia: cada `(de, para, tipo)` vira as posições das
/// pontas entre os ids dos nós, na ordem dos cabos.
pub fn cabos_salvos(ids: &Vec<String>, cabos: &Vec<(String, String, TipoCabo)>) -> (r: Vec<CaboSalvo>)
    ensures
        r@ == cabos_salvos_spec(
            ids@.map_values(|s: String| s@),
            cabos@.map_values(|c: (String, String, TipoCabo)| (c.0@, c.1@, c.2)),
        ),
        forall|k: int| 0 <= k < r@.len() ==> (#[trigger] r@[k]).de < ids@.len() && r@[k].para < ids@.len(),
{
    let ghost v = ids@.map_values(|s: String| s@);
    let ghost cs = cabos@.map_values(|c: (String, String, TipoCabo)| (c.0@, c.1@, c.2));
    let mut r: Vec<CaboSalvo> = Vec::new();
    let mut i: usize = 0;
    while i < cabos.len()
        invariant
            i <= cabos@.len(),
            v == ids@.map_values(|s: String| s@),
            cs == cabos@.map_values(|c: (String, String, TipoCabo)| (c.0@, c.1@, c.2)),
            r@ == cabos_salvos_spec(v, cs.take(i as int)),
            forall|k: int| 0 <= k < r@.len() ==> (#[trigger] r@[k]).de < ids@.len() && r@[k].para < ids@.len(),
        decreases cabos@.len() - i,
    {
        proof {
            assert(cs.take(i + 1).drop_last() =~= cs.take(i as int));
            assert(cs.take(i + 1).last() == cs[i as int]);
        }
        let de = posicao(ids, cabos[i].0.as_str());
        let para = posicao(ids, cabos[i].1.as_str());
        match (de, para) {
            (Some(d), Some(p)) => {
                proof {
                    lema_posicao(v, cabos@[i as int].0@);
                    lema_posicao(v, cabos@[i as int].1@);
                }
                r.push(CaboSalvo { de: d, para: p, tipo: cabos[i].2 });
            },
            _ => {},
        }
        i = i + 1;
    }
    proof {
        assert(cs.take(cs.len() as int) =~= cs);
    }
    r
}

// ------------------------------------------------------------------- teto

/// Quantos dos tipos são agentes.
pub open spec fn agentes_spec(tipos: Seq<TipoNo>) -> nat
    decreases tipos.len(),
{
    if tipos.len() == 0 {
        0
    } else {
        agentes_spec(tipos.drop_last()) + if tipos.last() == TipoNo::Agente {
            1nat
        } else {
            0nat
        }
    }
}

pub fn contar_agentes(tipos: &Vec<TipoNo>) -> (r: usize)
    ensures
        r == agentes_spec(tipos@),
{
    let mut n: usize = 0;
    let mut i: usize = 0;
    while i < tipos.len()
        invariant
            i <= tipos@.len(),
            n == agentes_spec(tipos@.take(i as int)),
            n <= i,
        decreases tipos@.len() - i,
    {
        proof {
            assert(tipos@.take(i + 1).drop_last() =~= tipos@.take(i as int));
        }
        if tipos[i] == TipoNo::Agente {
            n = n + 1;
        }
        i = i + 1;
    }
    proof {
        assert(tipos@.take(tipos@.len() as int) =~= tipos@);
    }
    n
}

/// A frase de um time que passaria do teto de agentes do workspace.
pub open spec fn frase_teto() -> Seq<char> {
    "abrir este time passaria de "@ + decimal(MAX_AGENTES_POR_WORKSPACE as nat)
        + " agentes no workspace. Apague alguém antes, ou abra em outro workspace."@
}

/// Pode abrir o time? Um time vazio não abre; um que passaria do teto de
/// agentes do workspace também não.
pub fn checar_montagem(existentes: &Vec<TipoNo>, do_time: &Vec<TipoNo>) -> (r: Result<(), Erro>)
    ensures
        do_time@.len() == 0 ==> (r matches Err(Erro::Invalido(m)) && m@
            == "este time salvo está vazio"@),
        do_time@.len() > 0 && agentes_spec(existentes@) + agentes_spec(do_time@)
            > MAX_AGENTES_POR_WORKSPACE ==> (r matches Err(Erro::Invalido(m)) && m@ == frase_teto()),
        do_time@.len() > 0 && agentes_spec(existentes@) + agentes_spec(do_time@)
            <= MAX_AGENTES_POR_WORKSPACE ==> r is Ok,
{
    if do_time.len() == 0 {
        return Err(Erro::invalido("este time salvo está vazio"));
    }
    let a = contar_agentes(existentes);
    let b = contar_agentes(do_time);
    if a > MAX_AGENTES_POR_WORKSPACE || b > MAX_AGENTES_POR_WORKSPACE - a {
        let mut v: Vec<char> = Vec::new();
        anexar(&mut v, "abrir este time passaria de ");
        let n = escrever_decimal(MAX_AGENTES_POR_WORKSPACE as u64);
        anexar_chars(&mut v, &n);
        anexar(&mut v, " agentes no workspace. Apague alguém antes, ou abra em outro workspace.");
        return Err(invalido_de(&v));
    }
    Ok(())
}

// ------------------------------------------------------------- nome livre

/// `base n`: a tentativa de número `n`.
pub open spec fn tentativa(base: Seq<char>, n: nat) -> Seq<char> {
    base + " "@ + decimal(n)
}

/// O nome está livre: ninguém usa o mesmo sem ligar para caixa.
pub open spec fn livre(usados: Seq<Seq<char>>, nome: Seq<char>) -> bool {
    !usados.contains(minusculas(nome))
}

/// Um nome que ainda não está em uso, comparando sem caixa: o nome aparado,
/// ou `nome 2`, `nome 3`… até 999; mil repetidos caem num sufixo aleatório.
///
/// `usados` são os nomes em uso, já aparados e em minúsculas.
pub fn nome_livre(desejado: &str, usados: &Vec<String>) -> (r: String)
    ensures
        ({
            let base = aparado(desejado@);
            let us = usados@.map_values(|s: String| s@);
            if livre(us, base) {
                r@ == base
            } else if exists|n: nat| 2 <= n < 1000 && #[trigger] livre(us, tentativa(base, n)) {
                exists|n: nat|
                    2 <= n < 1000 && r@ == tentativa(base, n) && livre(us, tentativa(base, n))
                        && forall|m: nat| 2 <= m < n ==> !#[trigger] livre(us, tentativa(base, m))
            } else {
                r@.len() == base.len() + 5 && r@.take(base.len() + 1 as int) == base + " "@
            }
        }),
{
    let ghost us = usados@.map_values(|s: String| s@);
    let base = aparar(desejado);
    if !lista_contem(usados, em_minusculas(base.as_str()).as_str()) {
        return base;
    }
    let mut n: u64 = 2;
    while n < 1000
        invariant
            2 <= n <= 1000,
            us == usados@.map_values(|s: String| s@),
            base@ == aparado(desejado@),
            !livre(us, base@),
            forall|m: nat| 2 <= m < n ==> !#[trigger] livre(us, tentativa(base@, m)),
        decreases 1000 - n,
    {
        let mut v = chars_de(base.as_str());
        anexar(&mut v, " ");
        let d = escrever_decimal(n);
        anexar_chars(&mut v, &d);
        let t = string_de(&v);
        if !lista_contem(usados, em_minusculas(t.as_str()).as_str()) {
            proof {
                assert(t@ == tentativa(base@, n as nat));
                assert(livre(us, tentativa(base@, n as nat)));
            }
            return t;
        }
        n = n + 1;
    }
    let mut v = chars_de(base.as_str());
    anexar(&mut v, " ");
    let id = chars_de(novo_id().as_str());
    let quatro = primeiros(&id, 4);
    anexar_chars(&mut v, &quatro);
    proof {
        reveal_strlit(" ");
        assert(v@.take(base@.len() + 1 as int) =~= base@ + " "@);
    }
    string_de(&v)
}

/// Só nó de agente conta para o teto: a contagem é o número de vezes que
/// `Agente` aparece entre os tipos, e qualquer outro tipo soma zero.
pub proof fn lei_so_agente_conta(tipos: Seq<TipoNo>)
    ensures
        agentes_spec(tipos) == tipos.to_multiset().count(TipoNo::Agente),
    decreases tipos.len(),
{
    broadcast use vstd::seq_lib::group_to_multiset_ensures;
    broadcast use vstd::multiset::group_multiset_axioms;

    if tipos.len() == 0 {
        assert(tipos.to_multiset() =~= vstd::multiset::Multiset::<TipoNo>::empty());
    } else {
        lei_so_agente_conta(tipos.drop_last());
        assert(tipos.drop_last().push(tipos.last()) =~= tipos);
        assert(tipos.to_multiset() == tipos.drop_last().to_multiset().insert(tipos.last()));
    }
}

} // verus!
